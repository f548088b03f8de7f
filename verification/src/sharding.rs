//! The shard coordinator: how many sessions to start, and when. The
//! platform lets one session identify every five seconds, and wants a
//! further pause where a new concurrency bucket begins.

use crate::config::Config;
use crate::error::DiscordError;
use crate::error::ErrorView;
use crate::gateway::manager::GatewayManager;
use crate::gateway::session::Phase;
use crate::gateway::session::SessionState;
use crate::http::client::GetGatewayBot;
use crate::intents::Intents;
use crate::model::gateway::presence_view;
use crate::model::gateway::IdentifyProperties;
use crate::model::presence::PresenceUpdate;
use crate::model::presence::PresenceView;
use vstd::prelude::*;
use vstd::string::StringExecFns;

verus! {

/// The pause between two identifies, in milliseconds.
pub const IDENTIFY_COOLDOWN_MS: u64 = 5000;

/// The pause before a session that has failed is started again.
pub const RESTART_GRACE_MS: u64 = 5000;

/// When to start one shard.
#[derive(Debug, Clone, Copy, PartialEq, Eq, Structural)]
pub struct ShardLaunch {
    pub shard_id: u64,
    pub shard_count: u64,
    /// The pause before the start, in milliseconds.
    pub wait_before_ms: u64,
    /// The pause after the start, in milliseconds.
    pub wait_after_ms: u64,
}

/// The pause before shard `shard_id` starts, with `max_concurrency`
/// shards to a concurrency bucket: one cooldown where a new bucket
/// begins, none else.
pub open spec fn wait_before(shard_id: u64, max_concurrency: u32) -> u64 {
    if shard_id > 0 && max_concurrency > 0 && shard_id % (max_concurrency as u64) == 0 {
        IDENTIFY_COOLDOWN_MS
    } else {
        0
    }
}

/// The launch of shard `shard_id` of `shards`.
pub open spec fn launch_of(shard_id: u64, shards: u32, max_concurrency: u32) -> ShardLaunch {
    ShardLaunch {
        shard_id,
        shard_count: shards as u64,
        wait_before_ms: wait_before(shard_id, max_concurrency),
        wait_after_ms: IDENTIFY_COOLDOWN_MS,
    }
}

/// When shard `shard_id` starts, in milliseconds after the coordinator
/// began: after the pauses before and after each earlier shard, and its
/// own pause before.
pub open spec fn start_time(shard_id: nat, max_concurrency: u32) -> int
    decreases shard_id,
{
    if shard_id == 0 {
        0
    } else {
        start_time((shard_id - 1) as nat, max_concurrency) + IDENTIFY_COOLDOWN_MS + if shard_id
            <= u64::MAX {
            wait_before(shard_id as u64, max_concurrency) as int
        } else {
            0
        }
    }
}

/// Two shards in a row start at least one cooldown apart, and two
/// cooldowns apart where the second begins a new concurrency bucket.
pub proof fn law_identify_cadence(shard_id: u64, max_concurrency: u32)
    requires
        shard_id > 0,
        max_concurrency > 0,
    ensures
        start_time(shard_id as nat, max_concurrency) - start_time(
            (shard_id - 1) as nat,
            max_concurrency,
        ) >= IDENTIFY_COOLDOWN_MS,
        shard_id % (max_concurrency as u64) == 0 ==> start_time(shard_id as nat, max_concurrency)
            - start_time((shard_id - 1) as nat, max_concurrency) == 2 * IDENTIFY_COOLDOWN_MS,
        shard_id % (max_concurrency as u64) != 0 ==> start_time(shard_id as nat, max_concurrency)
            - start_time((shard_id - 1) as nat, max_concurrency) == IDENTIFY_COOLDOWN_MS,
{
}

/// What is said where sessions are to start in no bucket at all.
pub open spec fn no_concurrency() -> Seq<char> {
    "max_concurrency must be at least 1"@
}

/// The coordinator: what every session of it shares.
#[derive(Debug)]
pub struct ShardManager {
    config: Config,
    intents: Intents,
    presence: Option<PresenceUpdate>,
}

/// The coordinator as contracts see it.
pub struct ShardView {
    pub token: Seq<char>,
    pub intents: u64,
    pub presence: Option<PresenceView>,
}

impl View for ShardManager {
    type V = ShardView;

    closed spec fn view(&self) -> ShardView {
        ShardView {
            token: self.config.token@,
            intents: self.intents@,
            presence: presence_view(self.presence),
        }
    }
}

impl ShardManager {
    /// A coordinator for sessions with the given settings and intents.
    pub fn new(config: Config, intents: Intents) -> (m: Self)
        ensures
            m@ == (ShardView { token: config.token@, intents: intents@, presence: None }),
    {
        Self { config, intents, presence: None }
    }

    /// The same coordinator, with a presence that every session shows.
    pub fn presence(self, presence: PresenceUpdate) -> (m: Self)
        ensures
            m@ == (ShardView { presence: Some(presence@), ..self@ }),
    {
        let mut m = self;
        m.presence = Some(presence);
        m
    }

    /// The plan for the shards that the platform advises: one launch for
    /// each shard, in order. It is an error to ask for two shards or
    /// more with no concurrency at all.
    pub fn start(&self, info: &GetGatewayBot) -> (r: Result<Vec<ShardLaunch>, DiscordError>)
        ensures
            match r {
                Ok(plan) => {
                    &&& !(info.shards >= 2 && info.session_start_limit.max_concurrency == 0)
                    &&& plan@.len() == info.shards
                    &&& forall|i: int|
                        0 <= i < plan@.len() ==> #[trigger] plan@[i] == launch_of(
                            i as u64,
                            info.shards,
                            info.session_start_limit.max_concurrency,
                        )
                },
                Err(e) => info.shards >= 2 && info.session_start_limit.max_concurrency == 0 && e@
                    == ErrorView::Sharding(no_concurrency()),
            },
    {
        let shards = info.shards;
        let max_concurrency = info.session_start_limit.max_concurrency;
        if shards >= 2 && max_concurrency == 0 {
            return Err(
                DiscordError::Sharding(String::from_str("max_concurrency must be at least 1")),
            );
        }
        let mut plan: Vec<ShardLaunch> = Vec::new();
        let mut shard_id: u32 = 0;
        while shard_id < shards
            invariant
                shard_id <= shards,
                shards < 2 || max_concurrency > 0,
                plan@.len() == shard_id,
                forall|i: int|
                    0 <= i < plan@.len() ==> #[trigger] plan@[i] == launch_of(
                        i as u64,
                        shards,
                        max_concurrency,
                    ),
            decreases shards - shard_id,
        {
            let wait_before_ms = if shard_id > 0 && shard_id % max_concurrency == 0 {
                IDENTIFY_COOLDOWN_MS
            } else {
                0
            };
            plan.push(
                ShardLaunch {
                    shard_id: shard_id as u64,
                    shard_count: shards as u64,
                    wait_before_ms,
                    wait_after_ms: IDENTIFY_COOLDOWN_MS,
                },
            );
            shard_id += 1;
        }
        Ok(plan)
    }

    /// The session of one launch, not connected yet: it has the settings,
    /// the intents and the presence of the coordinator, and is the shard
    /// that the launch names.
    pub fn session(&self, launch: &ShardLaunch, properties: IdentifyProperties, now: u64) -> (m:
        GatewayManager)
        ensures
            m@ == (SessionState {
                phase: Phase::Connecting,
                token: self@.token,
                intents: self@.intents,
                properties: properties@,
                session_id: None,
                resume_url: None,
                last_sequence: None,
                last_ack: now,
                heartbeat_interval: None,
                shard: Some((launch.shard_id, launch.shard_count)),
                presence: self@.presence,
                attempt: 0,
                compress: false,
            }),
            m.wf(),
    {
        let m = GatewayManager::new(self.config.clone(), self.intents, properties, now).shard(
            launch.shard_id,
            launch.shard_count,
        );
        match &self.presence {
            Some(p) => m.presence(p.clone()),
            None => m,
        }
    }

    /// What to do when the session of a shard has ended: a session that
    /// ended in an error is started again after a pause, one that ended
    /// cleanly is not.
    pub fn restart_delay(outcome: &Result<(), DiscordError>) -> (delay: Option<u64>)
        ensures
            delay == if outcome is Err {
                Some(RESTART_GRACE_MS)
            } else {
                None
            },
    {
        match outcome {
            Ok(_) => None,
            Err(_) => Some(RESTART_GRACE_MS),
        }
    }
}

} // verus!
