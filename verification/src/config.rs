//! Network tuning parameters, and the map of strings in which a configuration
//! file carries them.
//!
//! Every value is written as decimal text under the parameter's name, so that a
//! configuration may still name a parameter that no longer exists: such an
//! entry is reported and otherwise ignored.

use crate::decimal::{
    decimal_digits, lemma_parse_decimal_round_trip, parse_u32, parse_u32_spec, u32_to_decimal,
};
use crate::text::str_eq;
use vstd::prelude::*;
use vstd::string::*;

verus! {

/// Network tuning parameters.
#[non_exhaustive]
#[derive(Clone, Copy, Debug, PartialEq, Eq, Structural)]
pub struct KitsuneP2pTuningParams {
    /// Delay between gossip loop iteration. [Default: 10ms]
    pub gossip_loop_iteration_delay_ms: u32,
    /// Default agent count for remote notify. [Default: 5]
    pub default_notify_remote_agent_count: u32,
    /// Default timeout for remote notify. [Default: 1000ms]
    pub default_notify_timeout_ms: u32,
    /// Default timeout for rpc single. [Default: 2000]
    pub default_rpc_single_timeout_ms: u32,
    /// Default agent count for rpc multi. [Default: 2]
    pub default_rpc_multi_remote_agent_count: u32,
    /// Default timeout for rpc multi. [Default: 2000]
    pub default_rpc_multi_timeout_ms: u32,
    /// Default agent expires after milliseconds. [Default: 20 minutes]
    pub agent_info_expires_after_ms: u32,
    /// Tls in-memory session storage capacity. [Default: 512]
    pub tls_in_mem_session_storage: u32,
    /// How often should NAT nodes refresh their proxy contract?
    /// [Default: 2 minutes]
    pub proxy_keepalive_ms: u32,
    /// How often should proxy nodes prune their ProxyTo list?
    /// Note - to function this should be > proxy_keepalive_ms.
    /// [Default: 5 minutes]
    pub proxy_to_expire_ms: u32,
    /// Concurrent receive process buffer size. [Default: 512]
    pub concurrent_recv_buffer: u32,
    /// Quic max idle timeout (connection timeout). [Default: 30 Seconds]
    pub quic_max_idle_timeout_ms: u32,
    /// Quic channel limit per connection. [Default: 512]
    pub quic_connection_channel_limit: u32,
    /// Quic window management multiplier. [Default: 1]
    pub quic_window_multiplier: u32,
    /// Quic crypto buffer multiplier. [Default: 1]
    pub quic_crypto_buffer_multiplier: u32,
}

/// The parameters by name, in the order in which they are written out.
#[derive(Clone, Copy, Debug, PartialEq, Eq, Structural)]
pub enum TuningParam {
    GossipLoopIterationDelayMs,
    DefaultNotifyRemoteAgentCount,
    DefaultNotifyTimeoutMs,
    DefaultRpcSingleTimeoutMs,
    DefaultRpcMultiRemoteAgentCount,
    DefaultRpcMultiTimeoutMs,
    AgentInfoExpiresAfterMs,
    TlsInMemSessionStorage,
    ProxyKeepaliveMs,
    ProxyToExpireMs,
    ConcurrentRecvBuffer,
    QuicMaxIdleTimeoutMs,
    QuicConnectionChannelLimit,
    QuicWindowMultiplier,
    QuicCryptoBufferMultiplier,
}

/// What became of one entry of a configuration map.
#[derive(Clone, Copy, Debug, PartialEq, Eq, Structural)]
pub enum EntryOutcome {
    /// The entry named a parameter and its value was taken.
    Applied,
    /// The entry named a parameter, but its value is no `u32` in decimal.
    InvalidValue,
    /// No parameter has the entry's name.
    UnknownParam,
}

/// How many parameters there are.
pub const PARAM_COUNT: usize = 15;

impl TuningParam {
    /// The name under which the parameter stands in a configuration map.
    pub open spec fn spec_name(self) -> Seq<char> {
        match self {
            TuningParam::GossipLoopIterationDelayMs => "gossip_loop_iteration_delay_ms"@,
            TuningParam::DefaultNotifyRemoteAgentCount => "default_notify_remote_agent_count"@,
            TuningParam::DefaultNotifyTimeoutMs => "default_notify_timeout_ms"@,
            TuningParam::DefaultRpcSingleTimeoutMs => "default_rpc_single_timeout_ms"@,
            TuningParam::DefaultRpcMultiRemoteAgentCount => "default_rpc_multi_remote_agent_count"@,
            TuningParam::DefaultRpcMultiTimeoutMs => "default_rpc_multi_timeout_ms"@,
            TuningParam::AgentInfoExpiresAfterMs => "agent_info_expires_after_ms"@,
            TuningParam::TlsInMemSessionStorage => "tls_in_mem_session_storage"@,
            TuningParam::ProxyKeepaliveMs => "proxy_keepalive_ms"@,
            TuningParam::ProxyToExpireMs => "proxy_to_expire_ms"@,
            TuningParam::ConcurrentRecvBuffer => "concurrent_recv_buffer"@,
            TuningParam::QuicMaxIdleTimeoutMs => "quic_max_idle_timeout_ms"@,
            TuningParam::QuicConnectionChannelLimit => "quic_connection_channel_limit"@,
            TuningParam::QuicWindowMultiplier => "quic_window_multiplier"@,
            TuningParam::QuicCryptoBufferMultiplier => "quic_crypto_buffer_multiplier"@,
        }
    }

    /// The parameter that a name stands for, if any.
    pub open spec fn spec_from_name(key: Seq<char>) -> Option<TuningParam> {
        if key == "gossip_loop_iteration_delay_ms"@ {
            Some(TuningParam::GossipLoopIterationDelayMs)
        } else if key == "default_notify_remote_agent_count"@ {
            Some(TuningParam::DefaultNotifyRemoteAgentCount)
        } else if key == "default_notify_timeout_ms"@ {
            Some(TuningParam::DefaultNotifyTimeoutMs)
        } else if key == "default_rpc_single_timeout_ms"@ {
            Some(TuningParam::DefaultRpcSingleTimeoutMs)
        } else if key == "default_rpc_multi_remote_agent_count"@ {
            Some(TuningParam::DefaultRpcMultiRemoteAgentCount)
        } else if key == "default_rpc_multi_timeout_ms"@ {
            Some(TuningParam::DefaultRpcMultiTimeoutMs)
        } else if key == "agent_info_expires_after_ms"@ {
            Some(TuningParam::AgentInfoExpiresAfterMs)
        } else if key == "tls_in_mem_session_storage"@ {
            Some(TuningParam::TlsInMemSessionStorage)
        } else if key == "proxy_keepalive_ms"@ {
            Some(TuningParam::ProxyKeepaliveMs)
        } else if key == "proxy_to_expire_ms"@ {
            Some(TuningParam::ProxyToExpireMs)
        } else if key == "concurrent_recv_buffer"@ {
            Some(TuningParam::ConcurrentRecvBuffer)
        } else if key == "quic_max_idle_timeout_ms"@ {
            Some(TuningParam::QuicMaxIdleTimeoutMs)
        } else if key == "quic_connection_channel_limit"@ {
            Some(TuningParam::QuicConnectionChannelLimit)
        } else if key == "quic_window_multiplier"@ {
            Some(TuningParam::QuicWindowMultiplier)
        } else if key == "quic_crypto_buffer_multiplier"@ {
            Some(TuningParam::QuicCryptoBufferMultiplier)
        } else {
            None
        }
    }

    /// The place of the parameter in the written order.
    pub open spec fn spec_index(self) -> int {
        match self {
            TuningParam::GossipLoopIterationDelayMs => 0,
            TuningParam::DefaultNotifyRemoteAgentCount => 1,
            TuningParam::DefaultNotifyTimeoutMs => 2,
            TuningParam::DefaultRpcSingleTimeoutMs => 3,
            TuningParam::DefaultRpcMultiRemoteAgentCount => 4,
            TuningParam::DefaultRpcMultiTimeoutMs => 5,
            TuningParam::AgentInfoExpiresAfterMs => 6,
            TuningParam::TlsInMemSessionStorage => 7,
            TuningParam::ProxyKeepaliveMs => 8,
            TuningParam::ProxyToExpireMs => 9,
            TuningParam::ConcurrentRecvBuffer => 10,
            TuningParam::QuicMaxIdleTimeoutMs => 11,
            TuningParam::QuicConnectionChannelLimit => 12,
            TuningParam::QuicWindowMultiplier => 13,
            TuningParam::QuicCryptoBufferMultiplier => 14,
        }
    }

    /// The parameter at a place of the written order.
    pub open spec fn spec_at(i: int) -> TuningParam {
        if i == 0 {
            TuningParam::GossipLoopIterationDelayMs
        } else if i == 1 {
            TuningParam::DefaultNotifyRemoteAgentCount
        } else if i == 2 {
            TuningParam::DefaultNotifyTimeoutMs
        } else if i == 3 {
            TuningParam::DefaultRpcSingleTimeoutMs
        } else if i == 4 {
            TuningParam::DefaultRpcMultiRemoteAgentCount
        } else if i == 5 {
            TuningParam::DefaultRpcMultiTimeoutMs
        } else if i == 6 {
            TuningParam::AgentInfoExpiresAfterMs
        } else if i == 7 {
            TuningParam::TlsInMemSessionStorage
        } else if i == 8 {
            TuningParam::ProxyKeepaliveMs
        } else if i == 9 {
            TuningParam::ProxyToExpireMs
        } else if i == 10 {
            TuningParam::ConcurrentRecvBuffer
        } else if i == 11 {
            TuningParam::QuicMaxIdleTimeoutMs
        } else if i == 12 {
            TuningParam::QuicConnectionChannelLimit
        } else if i == 13 {
            TuningParam::QuicWindowMultiplier
        } else {
            TuningParam::QuicCryptoBufferMultiplier
        }
    }

    pub fn name(self) -> (r: &'static str)
        ensures
            r@ == self.spec_name(),
    {
        match self {
            TuningParam::GossipLoopIterationDelayMs => "gossip_loop_iteration_delay_ms",
            TuningParam::DefaultNotifyRemoteAgentCount => "default_notify_remote_agent_count",
            TuningParam::DefaultNotifyTimeoutMs => "default_notify_timeout_ms",
            TuningParam::DefaultRpcSingleTimeoutMs => "default_rpc_single_timeout_ms",
            TuningParam::DefaultRpcMultiRemoteAgentCount => "default_rpc_multi_remote_agent_count",
            TuningParam::DefaultRpcMultiTimeoutMs => "default_rpc_multi_timeout_ms",
            TuningParam::AgentInfoExpiresAfterMs => "agent_info_expires_after_ms",
            TuningParam::TlsInMemSessionStorage => "tls_in_mem_session_storage",
            TuningParam::ProxyKeepaliveMs => "proxy_keepalive_ms",
            TuningParam::ProxyToExpireMs => "proxy_to_expire_ms",
            TuningParam::ConcurrentRecvBuffer => "concurrent_recv_buffer",
            TuningParam::QuicMaxIdleTimeoutMs => "quic_max_idle_timeout_ms",
            TuningParam::QuicConnectionChannelLimit => "quic_connection_channel_limit",
            TuningParam::QuicWindowMultiplier => "quic_window_multiplier",
            TuningParam::QuicCryptoBufferMultiplier => "quic_crypto_buffer_multiplier",
        }
    }

    pub fn from_name(key: &str) -> (r: Option<TuningParam>)
        ensures
            r == Self::spec_from_name(key@),
    {
        if str_eq(key, "gossip_loop_iteration_delay_ms") {
            Some(TuningParam::GossipLoopIterationDelayMs)
        } else if str_eq(key, "default_notify_remote_agent_count") {
            Some(TuningParam::DefaultNotifyRemoteAgentCount)
        } else if str_eq(key, "default_notify_timeout_ms") {
            Some(TuningParam::DefaultNotifyTimeoutMs)
        } else if str_eq(key, "default_rpc_single_timeout_ms") {
            Some(TuningParam::DefaultRpcSingleTimeoutMs)
        } else if str_eq(key, "default_rpc_multi_remote_agent_count") {
            Some(TuningParam::DefaultRpcMultiRemoteAgentCount)
        } else if str_eq(key, "default_rpc_multi_timeout_ms") {
            Some(TuningParam::DefaultRpcMultiTimeoutMs)
        } else if str_eq(key, "agent_info_expires_after_ms") {
            Some(TuningParam::AgentInfoExpiresAfterMs)
        } else if str_eq(key, "tls_in_mem_session_storage") {
            Some(TuningParam::TlsInMemSessionStorage)
        } else if str_eq(key, "proxy_keepalive_ms") {
            Some(TuningParam::ProxyKeepaliveMs)
        } else if str_eq(key, "proxy_to_expire_ms") {
            Some(TuningParam::ProxyToExpireMs)
        } else if str_eq(key, "concurrent_recv_buffer") {
            Some(TuningParam::ConcurrentRecvBuffer)
        } else if str_eq(key, "quic_max_idle_timeout_ms") {
            Some(TuningParam::QuicMaxIdleTimeoutMs)
        } else if str_eq(key, "quic_connection_channel_limit") {
            Some(TuningParam::QuicConnectionChannelLimit)
        } else if str_eq(key, "quic_window_multiplier") {
            Some(TuningParam::QuicWindowMultiplier)
        } else if str_eq(key, "quic_crypto_buffer_multiplier") {
            Some(TuningParam::QuicCryptoBufferMultiplier)
        } else {
            None
        }
    }

    /// The parameter at place `i` of the written order.
    pub fn at(i: usize) -> (r: TuningParam)
        requires
            i < PARAM_COUNT,
        ensures
            r == Self::spec_at(i as int),
            r.spec_index() == i,
    {
        if i == 0 {
            TuningParam::GossipLoopIterationDelayMs
        } else if i == 1 {
            TuningParam::DefaultNotifyRemoteAgentCount
        } else if i == 2 {
            TuningParam::DefaultNotifyTimeoutMs
        } else if i == 3 {
            TuningParam::DefaultRpcSingleTimeoutMs
        } else if i == 4 {
            TuningParam::DefaultRpcMultiRemoteAgentCount
        } else if i == 5 {
            TuningParam::DefaultRpcMultiTimeoutMs
        } else if i == 6 {
            TuningParam::AgentInfoExpiresAfterMs
        } else if i == 7 {
            TuningParam::TlsInMemSessionStorage
        } else if i == 8 {
            TuningParam::ProxyKeepaliveMs
        } else if i == 9 {
            TuningParam::ProxyToExpireMs
        } else if i == 10 {
            TuningParam::ConcurrentRecvBuffer
        } else if i == 11 {
            TuningParam::QuicMaxIdleTimeoutMs
        } else if i == 12 {
            TuningParam::QuicConnectionChannelLimit
        } else if i == 13 {
            TuningParam::QuicWindowMultiplier
        } else {
            TuningParam::QuicCryptoBufferMultiplier
        }
    }
}

impl KitsuneP2pTuningParams {
    /// The values that hold where a configuration says nothing.
    pub open spec fn spec_default() -> KitsuneP2pTuningParams {
        KitsuneP2pTuningParams {
            gossip_loop_iteration_delay_ms: 10,
            default_notify_remote_agent_count: 5,
            default_notify_timeout_ms: 1000,
            default_rpc_single_timeout_ms: 2000,
            default_rpc_multi_remote_agent_count: 2,
            default_rpc_multi_timeout_ms: 2000,
            agent_info_expires_after_ms: 1_200_000,
            tls_in_mem_session_storage: 512,
            proxy_keepalive_ms: 120_000,
            proxy_to_expire_ms: 300_000,
            concurrent_recv_buffer: 512,
            quic_max_idle_timeout_ms: 30_000,
            quic_connection_channel_limit: 512,
            quic_window_multiplier: 1,
            quic_crypto_buffer_multiplier: 1,
        }
    }

    /// The value of one parameter.
    pub open spec fn spec_get(self, param: TuningParam) -> u32 {
        match param {
            TuningParam::GossipLoopIterationDelayMs => self.gossip_loop_iteration_delay_ms,
            TuningParam::DefaultNotifyRemoteAgentCount => self.default_notify_remote_agent_count,
            TuningParam::DefaultNotifyTimeoutMs => self.default_notify_timeout_ms,
            TuningParam::DefaultRpcSingleTimeoutMs => self.default_rpc_single_timeout_ms,
            TuningParam::DefaultRpcMultiRemoteAgentCount => self.default_rpc_multi_remote_agent_count,
            TuningParam::DefaultRpcMultiTimeoutMs => self.default_rpc_multi_timeout_ms,
            TuningParam::AgentInfoExpiresAfterMs => self.agent_info_expires_after_ms,
            TuningParam::TlsInMemSessionStorage => self.tls_in_mem_session_storage,
            TuningParam::ProxyKeepaliveMs => self.proxy_keepalive_ms,
            TuningParam::ProxyToExpireMs => self.proxy_to_expire_ms,
            TuningParam::ConcurrentRecvBuffer => self.concurrent_recv_buffer,
            TuningParam::QuicMaxIdleTimeoutMs => self.quic_max_idle_timeout_ms,
            TuningParam::QuicConnectionChannelLimit => self.quic_connection_channel_limit,
            TuningParam::QuicWindowMultiplier => self.quic_window_multiplier,
            TuningParam::QuicCryptoBufferMultiplier => self.quic_crypto_buffer_multiplier,
        }
    }

    /// These parameters with one of them set to `value`.
    pub open spec fn spec_with(self, param: TuningParam, value: u32) -> KitsuneP2pTuningParams {
        match param {
            TuningParam::GossipLoopIterationDelayMs => KitsuneP2pTuningParams { gossip_loop_iteration_delay_ms: value, ..self },
            TuningParam::DefaultNotifyRemoteAgentCount => KitsuneP2pTuningParams { default_notify_remote_agent_count: value, ..self },
            TuningParam::DefaultNotifyTimeoutMs => KitsuneP2pTuningParams { default_notify_timeout_ms: value, ..self },
            TuningParam::DefaultRpcSingleTimeoutMs => KitsuneP2pTuningParams { default_rpc_single_timeout_ms: value, ..self },
            TuningParam::DefaultRpcMultiRemoteAgentCount => KitsuneP2pTuningParams { default_rpc_multi_remote_agent_count: value, ..self },
            TuningParam::DefaultRpcMultiTimeoutMs => KitsuneP2pTuningParams { default_rpc_multi_timeout_ms: value, ..self },
            TuningParam::AgentInfoExpiresAfterMs => KitsuneP2pTuningParams { agent_info_expires_after_ms: value, ..self },
            TuningParam::TlsInMemSessionStorage => KitsuneP2pTuningParams { tls_in_mem_session_storage: value, ..self },
            TuningParam::ProxyKeepaliveMs => KitsuneP2pTuningParams { proxy_keepalive_ms: value, ..self },
            TuningParam::ProxyToExpireMs => KitsuneP2pTuningParams { proxy_to_expire_ms: value, ..self },
            TuningParam::ConcurrentRecvBuffer => KitsuneP2pTuningParams { concurrent_recv_buffer: value, ..self },
            TuningParam::QuicMaxIdleTimeoutMs => KitsuneP2pTuningParams { quic_max_idle_timeout_ms: value, ..self },
            TuningParam::QuicConnectionChannelLimit => KitsuneP2pTuningParams { quic_connection_channel_limit: value, ..self },
            TuningParam::QuicWindowMultiplier => KitsuneP2pTuningParams { quic_window_multiplier: value, ..self },
            TuningParam::QuicCryptoBufferMultiplier => KitsuneP2pTuningParams { quic_crypto_buffer_multiplier: value, ..self },
        }
    }

    /// What one entry of a configuration map does: a known name with a value
    /// that reads as a `u32` sets that parameter, and any other entry changes
    /// nothing.
    pub open spec fn spec_apply(self, key: Seq<char>, value: Seq<char>) -> KitsuneP2pTuningParams {
        match (TuningParam::spec_from_name(key), parse_u32_spec(value)) {
            (Some(param), Some(v)) => self.spec_with(param, v),
            _ => self,
        }
    }

    /// What is reported of one entry.
    pub open spec fn spec_outcome(key: Seq<char>, value: Seq<char>) -> EntryOutcome {
        match (TuningParam::spec_from_name(key), parse_u32_spec(value)) {
            (Some(_), Some(_)) => EntryOutcome::Applied,
            (Some(_), None) => EntryOutcome::InvalidValue,
            (None, _) => EntryOutcome::UnknownParam,
        }
    }

    /// The entries applied one after the other, the first one first.
    pub open spec fn spec_apply_all(self, entries: Seq<(String, String)>) -> KitsuneP2pTuningParams
        decreases entries.len(),
    {
        if entries.len() == 0 {
            self
        } else {
            self.spec_apply_all(entries.drop_last()).spec_apply(
                entries.last().0@,
                entries.last().1@,
            )
        }
    }

    /// The entry that writes out one parameter.
    pub open spec fn spec_entry(self, param: TuningParam) -> (Seq<char>, Seq<char>) {
        (param.spec_name(), decimal_digits(self.spec_get(param) as nat))
    }

    pub fn get(&self, param: TuningParam) -> (r: u32)
        ensures
            r == self.spec_get(param),
    {
        match param {
            TuningParam::GossipLoopIterationDelayMs => self.gossip_loop_iteration_delay_ms,
            TuningParam::DefaultNotifyRemoteAgentCount => self.default_notify_remote_agent_count,
            TuningParam::DefaultNotifyTimeoutMs => self.default_notify_timeout_ms,
            TuningParam::DefaultRpcSingleTimeoutMs => self.default_rpc_single_timeout_ms,
            TuningParam::DefaultRpcMultiRemoteAgentCount => self.default_rpc_multi_remote_agent_count,
            TuningParam::DefaultRpcMultiTimeoutMs => self.default_rpc_multi_timeout_ms,
            TuningParam::AgentInfoExpiresAfterMs => self.agent_info_expires_after_ms,
            TuningParam::TlsInMemSessionStorage => self.tls_in_mem_session_storage,
            TuningParam::ProxyKeepaliveMs => self.proxy_keepalive_ms,
            TuningParam::ProxyToExpireMs => self.proxy_to_expire_ms,
            TuningParam::ConcurrentRecvBuffer => self.concurrent_recv_buffer,
            TuningParam::QuicMaxIdleTimeoutMs => self.quic_max_idle_timeout_ms,
            TuningParam::QuicConnectionChannelLimit => self.quic_connection_channel_limit,
            TuningParam::QuicWindowMultiplier => self.quic_window_multiplier,
            TuningParam::QuicCryptoBufferMultiplier => self.quic_crypto_buffer_multiplier,
        }
    }

    pub fn set(&mut self, param: TuningParam, value: u32)
        ensures
            *final(self) == old(self).spec_with(param, value),
    {
        match param {
            TuningParam::GossipLoopIterationDelayMs => self.gossip_loop_iteration_delay_ms = value,
            TuningParam::DefaultNotifyRemoteAgentCount => self.default_notify_remote_agent_count = value,
            TuningParam::DefaultNotifyTimeoutMs => self.default_notify_timeout_ms = value,
            TuningParam::DefaultRpcSingleTimeoutMs => self.default_rpc_single_timeout_ms = value,
            TuningParam::DefaultRpcMultiRemoteAgentCount => self.default_rpc_multi_remote_agent_count = value,
            TuningParam::DefaultRpcMultiTimeoutMs => self.default_rpc_multi_timeout_ms = value,
            TuningParam::AgentInfoExpiresAfterMs => self.agent_info_expires_after_ms = value,
            TuningParam::TlsInMemSessionStorage => self.tls_in_mem_session_storage = value,
            TuningParam::ProxyKeepaliveMs => self.proxy_keepalive_ms = value,
            TuningParam::ProxyToExpireMs => self.proxy_to_expire_ms = value,
            TuningParam::ConcurrentRecvBuffer => self.concurrent_recv_buffer = value,
            TuningParam::QuicMaxIdleTimeoutMs => self.quic_max_idle_timeout_ms = value,
            TuningParam::QuicConnectionChannelLimit => self.quic_connection_channel_limit = value,
            TuningParam::QuicWindowMultiplier => self.quic_window_multiplier = value,
            TuningParam::QuicCryptoBufferMultiplier => self.quic_crypto_buffer_multiplier = value,
        }
    }

    /// Takes one entry of a configuration map.
    pub fn apply_entry(&mut self, key: &str, value: &str) -> (outcome: EntryOutcome)
        ensures
            *final(self) == old(self).spec_apply(key@, value@),
            outcome == Self::spec_outcome(key@, value@),
    {
        match TuningParam::from_name(key) {
            Some(param) => match parse_u32(value) {
                Some(v) => {
                    self.set(param, v);
                    EntryOutcome::Applied
                },
                None => EntryOutcome::InvalidValue,
            },
            None => EntryOutcome::UnknownParam,
        }
    }

    /// Reads the parameters from a configuration map: the defaults, changed by
    /// each entry in turn. The second result says, entry by entry, what
    /// became of it.
    pub fn from_entries(entries: &Vec<(String, String)>) -> (r: (
        KitsuneP2pTuningParams,
        Vec<EntryOutcome>,
    ))
        ensures
            r.0 == Self::spec_default().spec_apply_all(entries@),
            r.1@.len() == entries@.len(),
            forall|i: int|
                0 <= i < entries@.len() ==> #[trigger] r.1@[i] == Self::spec_outcome(
                    entries@[i].0@,
                    entries@[i].1@,
                ),
    {
        let mut out = KitsuneP2pTuningParams::default();
        let mut outcomes: Vec<EntryOutcome> = Vec::new();
        let mut i: usize = 0;
        assert(entries@.take(0) =~= Seq::<(String, String)>::empty());
        while i < entries.len()
            invariant
                i <= entries@.len(),
                out == Self::spec_default().spec_apply_all(entries@.take(i as int)),
                outcomes@.len() == i,
                forall|j: int|
                    0 <= j < i ==> #[trigger] outcomes@[j] == Self::spec_outcome(
                        entries@[j].0@,
                        entries@[j].1@,
                    ),
            decreases entries@.len() - i,
        {
            let outcome = out.apply_entry(entries[i].0.as_str(), entries[i].1.as_str());
            outcomes.push(outcome);
            proof {
                let next = entries@.take(i + 1);
                assert(next.drop_last() =~= entries@.take(i as int));
                assert(next.last() == entries@[i as int]);
            }
            i = i + 1;
        }
        assert(entries@.take(i as int) =~= entries@);
        (out, outcomes)
    }

    /// Writes the parameters out as a configuration map: one entry for each,
    /// in the order of the fields, the value in decimal.
    pub fn to_entries(&self) -> (r: Vec<(String, String)>)
        ensures
            r@.len() == PARAM_COUNT,
            forall|i: int|
                0 <= i < PARAM_COUNT ==> (#[trigger] r@[i]).0@ == TuningParam::spec_at(
                    i,
                ).spec_name() && r@[i].1@ == decimal_digits(
                    self.spec_get(TuningParam::spec_at(i)) as nat,
                ),
    {
        let mut r: Vec<(String, String)> = Vec::new();
        let mut i: usize = 0;
        while i < PARAM_COUNT
            invariant
                i <= PARAM_COUNT,
                r@.len() == i,
                forall|j: int|
                    0 <= j < i ==> (#[trigger] r@[j]).0@ == TuningParam::spec_at(j).spec_name()
                        && r@[j].1@ == decimal_digits(
                        self.spec_get(TuningParam::spec_at(j)) as nat,
                    ),
            decreases PARAM_COUNT - i,
        {
            let param = TuningParam::at(i);
            let key = String::from_str(param.name());
            let value = u32_to_decimal(self.get(param));
            r.push((key, value));
            i = i + 1;
        }
        r
    }
}

impl Default for KitsuneP2pTuningParams {
    fn default() -> (r: Self)
        ensures
            r == KitsuneP2pTuningParams::spec_default(),
    {
        KitsuneP2pTuningParams {
            gossip_loop_iteration_delay_ms: 10,
            default_notify_remote_agent_count: 5,
            default_notify_timeout_ms: 1000,
            default_rpc_single_timeout_ms: 2000,
            default_rpc_multi_remote_agent_count: 2,
            default_rpc_multi_timeout_ms: 2000,
            agent_info_expires_after_ms: 1_200_000,
            tls_in_mem_session_storage: 512,
            proxy_keepalive_ms: 120_000,
            proxy_to_expire_ms: 300_000,
            concurrent_recv_buffer: 512,
            quic_max_idle_timeout_ms: 30_000,
            quic_connection_channel_limit: 512,
            quic_window_multiplier: 1,
            quic_crypto_buffer_multiplier: 1,
        }
    }
}

/// Every parameter is found again under its own name: no two parameters share
/// a name.
pub proof fn lemma_name_round_trip(param: TuningParam)
    ensures
        TuningParam::spec_from_name(param.spec_name()) == Some(param),
{
    reveal_strlit("gossip_loop_iteration_delay_ms");
    reveal_strlit("default_notify_remote_agent_count");
    reveal_strlit("default_notify_timeout_ms");
    reveal_strlit("default_rpc_single_timeout_ms");
    reveal_strlit("default_rpc_multi_remote_agent_count");
    reveal_strlit("default_rpc_multi_timeout_ms");
    reveal_strlit("agent_info_expires_after_ms");
    reveal_strlit("tls_in_mem_session_storage");
    reveal_strlit("proxy_keepalive_ms");
    reveal_strlit("proxy_to_expire_ms");
    reveal_strlit("concurrent_recv_buffer");
    reveal_strlit("quic_max_idle_timeout_ms");
    reveal_strlit("quic_connection_channel_limit");
    reveal_strlit("quic_window_multiplier");
    reveal_strlit("quic_crypto_buffer_multiplier");
    assert("gossip_loop_iteration_delay_ms"@.len() == 30);
    assert("default_notify_remote_agent_count"@.len() == 33);
    assert("default_notify_timeout_ms"@.len() == 25);
    assert("default_rpc_single_timeout_ms"@.len() == 29);
    assert("default_rpc_multi_remote_agent_count"@.len() == 36);
    assert("default_rpc_multi_timeout_ms"@.len() == 28);
    assert("agent_info_expires_after_ms"@.len() == 27);
    assert("tls_in_mem_session_storage"@.len() == 26);
    assert("proxy_keepalive_ms"@.len() == 18);
    assert("proxy_to_expire_ms"@.len() == 18);
    assert("concurrent_recv_buffer"@.len() == 22);
    assert("quic_max_idle_timeout_ms"@.len() == 24);
    assert("quic_connection_channel_limit"@.len() == 29);
    assert("quic_window_multiplier"@.len() == 22);
    assert("quic_crypto_buffer_multiplier"@.len() == 29);
    assert("default_rpc_single_timeout_ms"@[0] == 'd' && "quic_connection_channel_limit"@[0] == 'q');
    assert("default_rpc_single_timeout_ms"@ != "quic_connection_channel_limit"@);
    assert("default_rpc_single_timeout_ms"@[0] == 'd' && "quic_crypto_buffer_multiplier"@[0] == 'q');
    assert("default_rpc_single_timeout_ms"@ != "quic_crypto_buffer_multiplier"@);
    assert("proxy_keepalive_ms"@[6] == 'k' && "proxy_to_expire_ms"@[6] == 't');
    assert("proxy_keepalive_ms"@ != "proxy_to_expire_ms"@);
    assert("concurrent_recv_buffer"@[0] == 'c' && "quic_window_multiplier"@[0] == 'q');
    assert("concurrent_recv_buffer"@ != "quic_window_multiplier"@);
    assert("quic_connection_channel_limit"@[6] == 'o' && "quic_crypto_buffer_multiplier"@[6] == 'r');
    assert("quic_connection_channel_limit"@ != "quic_crypto_buffer_multiplier"@);
}

/// The place of a parameter in the written order leads back to it.
pub proof fn lemma_index_round_trip(param: TuningParam)
    ensures
        0 <= param.spec_index() < PARAM_COUNT,
        TuningParam::spec_at(param.spec_index()) == param,
{
}

/// Two entries with different names may be taken in either order.
pub proof fn lemma_apply_commutes(
    p: KitsuneP2pTuningParams,
    key1: Seq<char>,
    value1: Seq<char>,
    key2: Seq<char>,
    value2: Seq<char>,
)
    requires
        key1 != key2,
    ensures
        p.spec_apply(key1, value1).spec_apply(key2, value2) == p.spec_apply(
            key2,
            value2,
        ).spec_apply(key1, value1),
{
}

/// After the first `k` entries of a written map, the first `k` parameters
/// have the written values and the others are as they were.
proof fn lemma_written_prefix(
    start: KitsuneP2pTuningParams,
    p: KitsuneP2pTuningParams,
    entries: Seq<(String, String)>,
    k: int,
)
    requires
        0 <= k <= entries.len() == PARAM_COUNT,
        forall|i: int|
            0 <= i < PARAM_COUNT ==> (#[trigger] entries[i]).0@ == TuningParam::spec_at(
                i,
            ).spec_name() && entries[i].1@ == decimal_digits(
                p.spec_get(TuningParam::spec_at(i)) as nat,
            ),
    ensures
        forall|q: TuningParam|
            #[trigger] start.spec_apply_all(entries.take(k)).spec_get(q) == if q.spec_index() < k {
                p.spec_get(q)
            } else {
                start.spec_get(q)
            },
    decreases k,
{
    if k == 0 {
        assert(entries.take(0) =~= Seq::<(String, String)>::empty());
    } else {
        lemma_written_prefix(start, p, entries, k - 1);
        let before = start.spec_apply_all(entries.take(k - 1));
        let cur = entries.take(k);
        assert(cur.drop_last() =~= entries.take(k - 1));
        assert(cur.last() == entries[k - 1]);
        let param = TuningParam::spec_at(k - 1);
        lemma_name_round_trip(param);
        lemma_parse_decimal_round_trip(p.spec_get(param));
        let after = before.spec_apply(entries[k - 1].0@, entries[k - 1].1@);
        assert(after == before.spec_with(param, p.spec_get(param)));
        assert(start.spec_apply_all(cur) == after);
        assert forall|q: TuningParam|
            #[trigger] after.spec_get(q) == if q.spec_index() < k {
                p.spec_get(q)
            } else {
                start.spec_get(q)
            } by {
            lemma_index_round_trip(q);
            assert(before.spec_get(q) == if q.spec_index() < k - 1 {
                p.spec_get(q)
            } else {
                start.spec_get(q)
            });
        }
    }
}

/// Reading back the map that `to_entries` wrote gives the parameters that were
/// written, whatever the values before.
pub proof fn lemma_entries_round_trip(
    start: KitsuneP2pTuningParams,
    p: KitsuneP2pTuningParams,
    entries: Seq<(String, String)>,
)
    requires
        entries.len() == PARAM_COUNT,
        forall|i: int|
            0 <= i < PARAM_COUNT ==> (#[trigger] entries[i]).0@ == TuningParam::spec_at(
                i,
            ).spec_name() && entries[i].1@ == decimal_digits(
                p.spec_get(TuningParam::spec_at(i)) as nat,
            ),
    ensures
        start.spec_apply_all(entries) == p,
{
    lemma_written_prefix(start, p, entries, PARAM_COUNT as int);
    assert(entries.take(PARAM_COUNT as int) =~= entries);
    let r = start.spec_apply_all(entries);
    assert(r.spec_get(TuningParam::GossipLoopIterationDelayMs) == p.spec_get(TuningParam::GossipLoopIterationDelayMs));
    assert(r.spec_get(TuningParam::DefaultNotifyRemoteAgentCount) == p.spec_get(TuningParam::DefaultNotifyRemoteAgentCount));
    assert(r.spec_get(TuningParam::DefaultNotifyTimeoutMs) == p.spec_get(TuningParam::DefaultNotifyTimeoutMs));
    assert(r.spec_get(TuningParam::DefaultRpcSingleTimeoutMs) == p.spec_get(TuningParam::DefaultRpcSingleTimeoutMs));
    assert(r.spec_get(TuningParam::DefaultRpcMultiRemoteAgentCount) == p.spec_get(TuningParam::DefaultRpcMultiRemoteAgentCount));
    assert(r.spec_get(TuningParam::DefaultRpcMultiTimeoutMs) == p.spec_get(TuningParam::DefaultRpcMultiTimeoutMs));
    assert(r.spec_get(TuningParam::AgentInfoExpiresAfterMs) == p.spec_get(TuningParam::AgentInfoExpiresAfterMs));
    assert(r.spec_get(TuningParam::TlsInMemSessionStorage) == p.spec_get(TuningParam::TlsInMemSessionStorage));
    assert(r.spec_get(TuningParam::ProxyKeepaliveMs) == p.spec_get(TuningParam::ProxyKeepaliveMs));
    assert(r.spec_get(TuningParam::ProxyToExpireMs) == p.spec_get(TuningParam::ProxyToExpireMs));
    assert(r.spec_get(TuningParam::ConcurrentRecvBuffer) == p.spec_get(TuningParam::ConcurrentRecvBuffer));
    assert(r.spec_get(TuningParam::QuicMaxIdleTimeoutMs) == p.spec_get(TuningParam::QuicMaxIdleTimeoutMs));
    assert(r.spec_get(TuningParam::QuicConnectionChannelLimit) == p.spec_get(TuningParam::QuicConnectionChannelLimit));
    assert(r.spec_get(TuningParam::QuicWindowMultiplier) == p.spec_get(TuningParam::QuicWindowMultiplier));
    assert(r.spec_get(TuningParam::QuicCryptoBufferMultiplier) == p.spec_get(TuningParam::QuicCryptoBufferMultiplier));
}

} // verus!
