//! The format a replay was loaded from.
//!
//! Where a format has several versions (TCBot, Silicate, RE) the version is
//! found from the file's own structure. GDR2 and the OmegaBot generations are
//! formats of their own because their files are kept apart.

use vstd::prelude::*;

verus! {

/// The original format of the currently loaded replay.
#[derive(Clone, Copy, Debug, PartialEq, Eq, Structural)]
pub enum ReplayFormat {
    // Cross-version
    PlainText,
    GDR1,
    GDR2,
    // 2.1 formats
    XBot,
    YBot1,
    ZBot,
    OmegaBot,
    OmegaBot2,
    OmegaBot3,
    MHR,
    MHRJson,
    TASBot,
    ReplayBot,
    EchoLegacy,
    EchoJson,
    EchoBinary,
    Rush,
    KDBot,
    RBot,
    // 2.2 formats
    YBot2,
    XDBot,
    ReplayEngine,
    Silicate,
    TCBot,
}

} // verus!
