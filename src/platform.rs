//! The platform object that the host creates once at start-up.
use vstd::prelude::*;

use crate::config::{decode_config, decode_spec, Config, ConfigError, ConfigPayload, ConfigView};

verus! {

/// The host's logger, as far as the platform uses it.
pub trait Logger {
    fn info(&self, message: &str);
}

/// An accessory handle that can describe itself for the log.
pub trait Describe {
    fn describe(&self) -> String;
}

/// The greeting that the diagnostic calls return.
pub const GREETING: &'static str = "Hello from Rust";

/// What the platform logs once it is built.
pub const INITIALIZED_LINE: &'static str = "Platform finished initializing!";

/// What the platform logs when the host has finished launching.
pub const LAUNCHED_LINE: &'static str = "Platform didFinishLaunching";

/// What precedes an accessory's description in the log.
pub const CACHE_LINE_PREFIX: &'static str = "Loading accessory from cache: ";

/// The event on whose emission the host reports that launching has finished.
pub const LAUNCH_EVENT: &'static str = "didFinishLaunching";

/// The platform: its logger, its configuration and the accessories that the
/// host has replayed from its cache, in the order of the calls.
pub struct Platform<L, A> {
    log: L,
    config: Config,
    accessories: Vec<A>,
}

/// The accessories after a run of calls that each add one, in turn, to `start`.
pub open spec fn replayed<A>(start: Seq<A>, calls: Seq<A>) -> Seq<A>
    decreases calls.len(),
{
    if calls.len() == 0 {
        start
    } else {
        replayed(start.push(calls[0]), calls.drop_first())
    }
}

impl<L: Logger, A: Describe> Platform<L, A> {
    /// The accessories held, in order.
    pub closed spec fn accessories_view(&self) -> Seq<A> {
        self.accessories@
    }

    /// The configuration held.
    pub closed spec fn config_view(&self) -> ConfigView {
        self.config@
    }

    /// The logger held.
    pub closed spec fn log_view(&self) -> L {
        self.log
    }

    /// Builds the platform from the host's logger and configuration payload.
    /// It succeeds exactly when the payload decodes; the platform then holds
    /// the decoded configuration and no accessory, and has logged that it is
    /// ready. On failure the error is the decoding error and nothing is logged.
    pub fn new(log: L, payload: ConfigPayload) -> (r: Result<Platform<L, A>, ConfigError>)
        ensures
            decode_spec(payload@) is Ok <==> r is Ok,
            r matches Ok(p) ==> {
                &&& Ok::<ConfigView, ConfigError>(p.config_view()) == decode_spec(payload@)
                &&& p.accessories_view() == Seq::<A>::empty()
                &&& p.log_view() == log
            },
            r matches Err(e) ==> decode_spec(payload@) == Err::<ConfigView, ConfigError>(e),
    {
        let config = match decode_config(payload) {
            Ok(c) => c,
            Err(e) => return Err(e),
        };
        let platform = Platform { log, config, accessories: Vec::new() };
        platform.log.info(INITIALIZED_LINE);
        Ok(platform)
    }

    /// The diagnostic greeting; it depends on nothing.
    pub fn get_initial_state(&self) -> (r: String)
        ensures
            r@ == GREETING@,
    {
        String::from_str(GREETING)
    }

    /// The diagnostic greeting again, for the host's smoke test.
    pub fn test(&self) -> (r: String)
        ensures
            r@ == GREETING@,
    {
        String::from_str(GREETING)
    }

    /// Keeps an accessory that the host replays from its cache: it is logged
    /// and added after those already held, with no check and no deduplication.
    pub fn configure_accessory(&mut self, accessory: A)
        ensures
            final(self).accessories_view() == old(self).accessories_view().push(accessory),
            final(self).config_view() == old(self).config_view(),
            final(self).log_view() == old(self).log_view(),
    {
        let mut line = String::from_str(CACHE_LINE_PREFIX);
        let description = accessory.describe();
        line.append(description.as_str());
        self.log.info(line.as_str());
        self.accessories.push(accessory);
    }

    /// Reports that the host has finished launching.
    pub fn did_finish_launching(&self) {
        self.log.info(LAUNCHED_LINE);
    }

    /// The accessories held, in the order they were added.
    pub fn accessories(&self) -> (r: &[A])
        ensures
            r@ == self.accessories_view(),
    {
        self.accessories.as_slice()
    }

    /// The configuration held.
    pub fn config(&self) -> (r: &Config)
        ensures
            r@ == self.config_view(),
    {
        &self.config
    }

    /// A run of calls to [`Platform::configure_accessory`] from a platform
    /// holding `start` leaves `start` followed by the accessories of the calls,
    /// in the order of the calls: from a new platform, exactly those accessories.
    pub proof fn lemma_replay_keeps_order(start: Seq<A>, calls: Seq<A>)
        ensures
            replayed(start, calls) == start + calls,
            replayed(Seq::<A>::empty(), calls) == calls,
        decreases calls.len(),
    {
        if calls.len() > 0 {
            Self::lemma_replay_keeps_order(start.push(calls[0]), calls.drop_first());
            assert(start.push(calls[0]) + calls.drop_first() =~= start + calls);
            Self::lemma_replay_keeps_order(seq![calls[0]], calls.drop_first());
            assert(seq![calls[0]] + calls.drop_first() =~= calls);
        } else {
            assert(start + calls =~= start);
        }
    }
}

} // verus!
