//! The plugin's lifecycle: it owns the started SDK session until it is built
//! into an app, which it can be once.

use vstd::prelude::*;

verus! {

/// Why the SDK session could not be started.
#[derive(Debug, Clone, PartialEq, Eq)]
pub enum InitError {
    /// Some other failure.
    FailedGeneric(String),
    /// Steam cannot be reached; the client is probably not running.
    NoSteamClient(String),
    /// The Steam client appears to be out of date.
    VersionMismatch(String),
}

/// Why the plugin could not be installed.
#[derive(Debug, Clone, Copy, PartialEq, Eq, Structural)]
pub enum PluginError {
    /// The plugin's session was already handed to an app.
    AlreadyBuilt,
}

/// A plugin for adding support for the Steam SDK: it holds the started
/// session `S` until it is built into an app.
pub struct SteamworksPlugin<S> {
    steam: Option<S>,
}

/// The session, or the typed error, that a start of the SDK leaves a plugin
/// with.
pub open spec fn start_outcome<S>(res: Result<S, InitError>) -> Result<Option<S>, InitError> {
    match res {
        Ok(s) => Ok(Some(s)),
        Err(e) => Err(e),
    }
}

/// What starting a plugin from `res` gives: a plugin holding the started
/// session, or the start's error.
pub open spec fn started_as<S>(
    res: Result<S, InitError>,
    r: Result<SteamworksPlugin<S>, InitError>,
) -> bool {
    match r {
        Ok(p) => start_outcome(res) == Ok::<Option<S>, InitError>(p.session()),
        Err(e) => start_outcome(res) == Err::<Option<S>, InitError>(e),
    }
}

/// What one `build` does: with a session held, it hands that session out and
/// keeps nothing; with none, it fails with `AlreadyBuilt` and changes nothing.
pub open spec fn build_outcome<S>(
    before: SteamworksPlugin<S>,
    after: SteamworksPlugin<S>,
    r: Result<S, PluginError>,
) -> bool {
    &&& after.session() is None
    &&& match before.session() {
        Some(s) => r == Ok::<S, PluginError>(s),
        None => r == Err::<S, PluginError>(PluginError::AlreadyBuilt),
    }
}

impl<S> SteamworksPlugin<S> {
    /// The started session that the plugin holds, until it is built.
    pub closed spec fn session(&self) -> Option<S> {
        self.steam
    }

    /// A plugin for the outcome of starting the SDK session: one that holds
    /// the session, or the start's typed error and no plugin.
    pub fn from_init_result(res: Result<S, InitError>) -> (r: Result<Self, InitError>)
        ensures
            started_as(res, r),
    {
        match res {
            Ok(session) => Ok(SteamworksPlugin { steam: Some(session) }),
            Err(e) => Err(e),
        }
    }

    /// Whether the plugin still holds a session to install.
    pub fn is_ready(&self) -> (r: bool)
        ensures
            r == self.session() is Some,
    {
        self.steam.is_some()
    }

    /// Installs the plugin: hands out the session. A second call fails with
    /// `AlreadyBuilt` rather than starting or sharing the SDK twice.
    pub fn build(&mut self) -> (r: Result<S, PluginError>)
        ensures
            build_outcome(*old(self), *final(self), r),
    {
        match self.steam.take() {
            Some(session) => Ok(session),
            None => Err(PluginError::AlreadyBuilt),
        }
    }
}

/// A start that the SDK refused yields its typed error and no plugin, so
/// nothing is registered and no pump is scheduled for it.
pub proof fn lemma_failed_start_installs_nothing<S>(
    e: InitError,
    r: Result<SteamworksPlugin<S>, InitError>,
)
    requires
        started_as(Err(e), r),
    ensures
        r == Err::<SteamworksPlugin<S>, InitError>(e),
{
}

/// Once a plugin has been built, building it again fails with
/// `AlreadyBuilt` and leaves it without a session: the session is never
/// installed twice.
pub proof fn lemma_second_build_fails<S>(
    p0: SteamworksPlugin<S>,
    p1: SteamworksPlugin<S>,
    p2: SteamworksPlugin<S>,
    r1: Result<S, PluginError>,
    r2: Result<S, PluginError>,
)
    requires
        build_outcome(p0, p1, r1),
        build_outcome(p1, p2, r2),
    ensures
        r2 == Err::<S, PluginError>(PluginError::AlreadyBuilt),
        p2.session() is None,
{
}

} // verus!
