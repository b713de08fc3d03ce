//! Fatal consistency checks run before live-phase work: seed identity,
//! client build version, and expansion availability.

use vstd::prelude::*;
use crate::errors::{FatalError, SeedConflict};
use crate::parse::str_eq;
use crate::snapshot::DlcStatus;

verus! {

/// The view of an optional string.
pub open spec fn opt_view(s: Option<&String>) -> Option<Seq<char>> {
    match s {
        Some(x) => Some(x@),
        None => None,
    }
}

/// Whether the three sources of the session's seed identity agree wherever
/// they are present: the connected server's reported seed, the persisted
/// save's seed, and the configured seed.
pub open spec fn seeds_consistent(
    client: Option<Seq<char>>,
    save: Option<Seq<char>>,
    config: Seq<char>,
) -> bool {
    &&& match client {
        Some(c) => c == config,
        None => true,
    }
    &&& match save {
        Some(s) => s == config,
        None => true,
    }
}

/// Checks the seed identities pairwise. Any mismatch among present values is
/// fatal, and the error names the two sources that disagree.
pub fn check_seed_conflict(
    client_seed: Option<&String>,
    save_seed: Option<&String>,
    config_seed: &String,
) -> (r: Result<(), SeedConflict>)
    ensures
        r is Ok <==> seeds_consistent(opt_view(client_seed), opt_view(save_seed), config_seed@),
        match r {
            Ok(_) => true,
            Err(e) => {
                let c = opt_view(client_seed);
                let sv = opt_view(save_seed);
                match e {
                    SeedConflict::ClientVsConfig { client_seed: a, config_seed: b } => {
                        &&& c == Some(a@)
                        &&& b@ == config_seed@
                        &&& a@ != config_seed@
                    },
                    SeedConflict::ClientVsSave { client_seed: a, save_seed: b } => {
                        &&& c == Some(a@)
                        &&& sv == Some(b@)
                        &&& a@ == config_seed@
                        &&& a@ != b@
                    },
                    SeedConflict::SaveVsConfig { save_seed: a, config_seed: b } => {
                        &&& c is None
                        &&& sv == Some(a@)
                        &&& b@ == config_seed@
                        &&& a@ != config_seed@
                    },
                }
            },
        },
{
    if let Some(client) = client_seed {
        if !str_eq(client.as_str(), config_seed.as_str()) {
            return Err(SeedConflict::ClientVsConfig {
                client_seed: client.clone(),
                config_seed: config_seed.clone(),
            });
        }
        if let Some(save) = save_seed {
            if !str_eq(client.as_str(), save.as_str()) {
                return Err(SeedConflict::ClientVsSave {
                    client_seed: client.clone(),
                    save_seed: save.clone(),
                });
            }
        }
        Ok(())
    } else {
        if let Some(save) = save_seed {
            if !str_eq(config_seed.as_str(), save.as_str()) {
                return Err(SeedConflict::SaveVsConfig {
                    save_seed: save.clone(),
                    config_seed: config_seed.clone(),
                });
            }
        }
        Ok(())
    }
}

/// Records the configured seed as the save's identity if the save has none
/// yet. First-write only: an existing identity is never overwritten.
pub fn adopt_seed(save_seed: &mut Option<String>, config_seed: &String)
    ensures
        match *old(save_seed) {
            Some(_) => *final(save_seed) == *old(save_seed),
            None => match *final(save_seed) {
                Some(s) => s@ == config_seed@,
                None => false,
            },
        },
{
    if save_seed.is_none() {
        *save_seed = Some(config_seed.clone());
    }
}

/// Returns an error if the configuration was generated by a different client
/// build than this one.
pub fn check_version_conflict(
    config_version: Option<&String>,
    build_version: &String,
) -> (r: Result<(), FatalError>)
    ensures
        r is Ok <==> match opt_view(config_version) {
            Some(v) => v == build_version@,
            None => true,
        },
        match r {
            Ok(_) => true,
            Err(e) => match e {
                FatalError::VersionConflict { config_version: c, build_version: b } => {
                    &&& opt_view(config_version) == Some(c@)
                    &&& b@ == build_version@
                    &&& c@ != build_version@
                },
                _ => false,
            },
        },
{
    if let Some(config) = config_version {
        if !str_eq(config.as_str(), build_version.as_str()) {
            return Err(FatalError::VersionConflict {
                config_version: config.clone(),
                build_version: build_version.clone(),
            });
        }
    }
    Ok(())
}

/// Whether the expansion check fails: the game exposes its expansion state,
/// the player is in a loaded game (the state is unreliable before that), the
/// seed expects the expansions, and at least one is missing.
pub open spec fn spec_dlc_missing(
    dlc: Option<DlcStatus>,
    map_loaded: bool,
    client_present: bool,
    enable_dlc: bool,
) -> bool {
    &&& dlc matches Some(d) && !(d.dlc1_installed && d.dlc2_installed)
    &&& map_loaded
    &&& client_present
    &&& enable_dlc
}

/// Returns an error if the seed expects expansion content that is not
/// installed. The check waits until the player is actually in a game,
/// because the game reports the expansions as missing until the global save
/// data loads.
pub fn check_dlc_error(
    dlc: Option<DlcStatus>,
    map_loaded: bool,
    client_present: bool,
    enable_dlc: bool,
) -> (r: Result<(), FatalError>)
    ensures
        r is Err <==> spec_dlc_missing(dlc, map_loaded, client_present, enable_dlc),
        match r {
            Ok(_) => true,
            Err(e) => match e {
                FatalError::MissingDlc { dlc1_installed, dlc2_installed } => {
                    dlc == Some(DlcStatus { dlc1_installed, dlc2_installed })
                },
                _ => false,
            },
        },
{
    if let Some(d) = dlc {
        if map_loaded && client_present && enable_dlc && !(d.dlc1_installed && d.dlc2_installed) {
            return Err(FatalError::MissingDlc {
                dlc1_installed: d.dlc1_installed,
                dlc2_installed: d.dlc2_installed,
            });
        }
    }
    Ok(())
}

} // verus!
