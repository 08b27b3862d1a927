//! The program's settings, and the choice of the one source to poll.
use vstd::prelude::*;

use crate::{lastfm, listenbrainz, revolt};

verus! {

/// All settings.
#[derive(Debug)]
pub struct Config {
    pub service: ServiceOptions,
    pub revolt: revolt::Options,
}

/// The settings of each source, where given.
#[derive(Debug)]
pub struct ServiceOptions {
    pub lastfm: Option<lastfm::Options>,
    pub listenbrainz: Option<listenbrainz::Options>,
}

/// The names of the sources that are given and enabled, in this order:
/// Last.fm, then ListenBrainz.
pub open spec fn enabled_names(service: ServiceOptions) -> Seq<Seq<char>> {
    let first: Seq<Seq<char>> = if (service.lastfm matches Some(o) && o.enable) {
        seq!["LastFM"@]
    } else {
        seq![]
    };
    let second: Seq<Seq<char>> = if (service.listenbrainz matches Some(o) && o.enable) {
        seq!["ListenBrainz"@]
    } else {
        seq![]
    };
    first + second
}

impl Config {
    /// The names of the enabled sources.
    pub fn enabled_services(&self) -> (r: Vec<&str>)
        ensures
            r@.len() == enabled_names(self.service).len(),
            forall|i: int| 0 <= i < r@.len() ==> #[trigger] r@[i]@ == enabled_names(self.service)[i],
    {
        let mut services: Vec<&str> = Vec::new();
        let lastfm_on = match &self.service.lastfm {
            Some(o) => o.enable,
            None => false,
        };
        if lastfm_on {
            services.push("LastFM");
        }
        let listenbrainz_on = match &self.service.listenbrainz {
            Some(o) => o.enable,
            None => false,
        };
        if listenbrainz_on {
            services.push("ListenBrainz");
        }
        services
    }
}

/// The one source to poll, with its settings.
#[derive(Debug)]
pub enum SelectedService {
    LastFM(lastfm::Options),
    ListenBrainz(listenbrainz::Options),
}

/// Why no source can be chosen.
#[derive(Debug)]
pub enum ArgumentsError {
    /// More than one source is enabled; the names of those that are.
    MoreThanOneServiceEnabled(String),
    NoServicesEnabled,
}

/// Chooses the source to poll: exactly one must be enabled.
pub fn select_service(service: ServiceOptions) -> (r: Result<SelectedService, ArgumentsError>)
    ensures
        ({
            let lastfm_on = (service.lastfm matches Some(o) && o.enable);
            let listenbrainz_on = (service.listenbrainz matches Some(o) && o.enable);
            &&& (!lastfm_on && !listenbrainz_on) ==> (r matches Err(ArgumentsError::NoServicesEnabled))
            &&& (lastfm_on && listenbrainz_on) ==> (r matches Err(
                ArgumentsError::MoreThanOneServiceEnabled(names),
            ) && names@ == "LastFM, ListenBrainz"@)
            &&& (lastfm_on && !listenbrainz_on) ==> (r matches Ok(SelectedService::LastFM(o))
                && service.lastfm == Some(o))
            &&& (!lastfm_on && listenbrainz_on) ==> (r matches Ok(SelectedService::ListenBrainz(o))
                && service.listenbrainz == Some(o))
        }),
{
    let lastfm_on = match &service.lastfm {
        Some(o) => o.enable,
        None => false,
    };
    let listenbrainz_on = match &service.listenbrainz {
        Some(o) => o.enable,
        None => false,
    };
    if lastfm_on && listenbrainz_on {
        Err(ArgumentsError::MoreThanOneServiceEnabled("LastFM, ListenBrainz".to_owned()))
    } else if lastfm_on {
        match service.lastfm {
            Some(o) => Ok(SelectedService::LastFM(o)),
            None => Err(ArgumentsError::NoServicesEnabled),
        }
    } else if listenbrainz_on {
        match service.listenbrainz {
            Some(o) => Ok(SelectedService::ListenBrainz(o)),
            None => Err(ArgumentsError::NoServicesEnabled),
        }
    } else {
        Err(ArgumentsError::NoServicesEnabled)
    }
}

} // verus!
