//! Configuration builder for a broker consumer: named, independently
//! defaulted settings, and the key-value entries a client configuration is
//! made of. Creating the network client from them is outside work.

use vstd::prelude::*;

use crate::decimal::format_bool;
use crate::decimal::format_i32;
use crate::decimal::spec_bool_str;
use crate::decimal::spec_int_str;

verus! {

/// Collects the consumer settings before the broker client is created.
pub struct ConsumerBuilder {
    /// Bootstrap addresses of the broker cluster.
    pub bootstrap: Option<String>,
    /// Consumer group id.
    pub group_id: Option<String>,
    /// Client id.
    pub client_id: Option<String>,
    /// Where consumption starts when no committed offset exists.
    pub auto_offset_reset: String,
    /// Automatically store the offset of the last message provided to the
    /// application; the offset store is an in-memory store of the next
    /// offset to commit for each partition.
    pub enable_auto_offset_store: bool,
    /// Automatically and periodically commit offsets in the background.
    pub enable_auto_commit: bool,
    /// Emit an event whenever the consumer reaches the end of a partition.
    pub enable_partition_eof: bool,
    /// How often, in milliseconds, consumer offsets are committed to offset
    /// storage.
    pub auto_commit_interval_ms: i32,
    /// Longest allowed time, in milliseconds, between consume calls before
    /// the consumer counts as failed.
    pub max_poll_interval_ms: i32,
    /// Group session and failure-detection timeout, in milliseconds.
    pub session_timeout_ms: i32,
    /// Group session keepalive heartbeat interval, in milliseconds.
    pub heartbeat_interval_ms: i32,
}

impl Default for ConsumerBuilder {
    /// The defaults: offset reset from the earliest offset, offset store
    /// off, auto-commit on every second, partition-end events off, a
    /// ten-second session timeout and a three-second heartbeat.
    fn default() -> (r: ConsumerBuilder)
        ensures
            r.bootstrap is None,
            r.group_id is None,
            r.client_id is None,
            r.auto_offset_reset@ == "earliest"@,
            !r.enable_auto_offset_store,
            r.enable_auto_commit,
            !r.enable_partition_eof,
            r.auto_commit_interval_ms == 1000,
            r.max_poll_interval_ms == 300000,
            r.session_timeout_ms == 10000,
            r.heartbeat_interval_ms == 3000,
    {
        ConsumerBuilder {
            bootstrap: None,
            group_id: None,
            client_id: None,
            auto_offset_reset: "earliest".to_owned(),
            enable_auto_offset_store: false,
            enable_auto_commit: true,
            enable_partition_eof: false,
            auto_commit_interval_ms: 1000,
            max_poll_interval_ms: 300000,
            session_timeout_ms: 10000,
            heartbeat_interval_ms: 3000,
        }
    }
}

impl ConsumerBuilder {
    /// Sets the bootstrap addresses.
    pub fn set_bootstrap(self, bootstrap: String) -> (r: ConsumerBuilder)
        ensures
            r == (ConsumerBuilder { bootstrap: Some(bootstrap), ..self }),
    {
        ConsumerBuilder { bootstrap: Some(bootstrap), ..self }
    }

    /// Sets the consumer group id.
    pub fn set_group_id(self, group_id: String) -> (r: ConsumerBuilder)
        ensures
            r == (ConsumerBuilder { group_id: Some(group_id), ..self }),
    {
        ConsumerBuilder { group_id: Some(group_id), ..self }
    }

    /// Sets the client id.
    pub fn set_client_id(self, client_id: String) -> (r: ConsumerBuilder)
        ensures
            r == (ConsumerBuilder { client_id: Some(client_id), ..self }),
    {
        ConsumerBuilder { client_id: Some(client_id), ..self }
    }

    /// Sets where consumption starts when no committed offset exists.
    pub fn set_auto_offset_reset(self, auto_offset_reset: String) -> (r: ConsumerBuilder)
        ensures
            r == (ConsumerBuilder { auto_offset_reset, ..self }),
    {
        ConsumerBuilder { auto_offset_reset, ..self }
    }

    /// Switches the in-memory offset store on or off.
    pub fn set_enable_auto_offset_store(self, enable_auto_offset_store: bool) -> (r:
        ConsumerBuilder)
        ensures
            r == (ConsumerBuilder { enable_auto_offset_store, ..self }),
    {
        ConsumerBuilder { enable_auto_offset_store, ..self }
    }

    /// Switches background offset committing on or off.
    pub fn set_enable_auto_commit(self, enable_auto_commit: bool) -> (r: ConsumerBuilder)
        ensures
            r == (ConsumerBuilder { enable_auto_commit, ..self }),
    {
        ConsumerBuilder { enable_auto_commit, ..self }
    }

    /// Switches partition-end events on or off.
    pub fn set_enable_partition_eof(self, enable_partition_eof: bool) -> (r: ConsumerBuilder)
        ensures
            r == (ConsumerBuilder { enable_partition_eof, ..self }),
    {
        ConsumerBuilder { enable_partition_eof, ..self }
    }

    /// Sets how often offsets are committed, in milliseconds.
    pub fn set_auto_commit_interval_ms(self, auto_commit_interval_ms: i32) -> (r: ConsumerBuilder)
        ensures
            r == (ConsumerBuilder { auto_commit_interval_ms, ..self }),
    {
        ConsumerBuilder { auto_commit_interval_ms, ..self }
    }

    /// Sets the longest allowed time between consume calls, in milliseconds.
    pub fn set_max_poll_interval_ms(self, max_poll_interval_ms: i32) -> (r: ConsumerBuilder)
        ensures
            r == (ConsumerBuilder { max_poll_interval_ms, ..self }),
    {
        ConsumerBuilder { max_poll_interval_ms, ..self }
    }

    /// Sets the heartbeat interval, in milliseconds.
    pub fn set_heartbeat_interval_ms(self, heartbeat_interval_ms: i32) -> (r: ConsumerBuilder)
        ensures
            r == (ConsumerBuilder { heartbeat_interval_ms, ..self }),
    {
        ConsumerBuilder { heartbeat_interval_ms, ..self }
    }

    /// Sets the session timeout, in milliseconds.
    pub fn set_session_timeout_ms(self, session_timeout_ms: i32) -> (r: ConsumerBuilder)
        ensures
            r == (ConsumerBuilder { session_timeout_ms, ..self }),
    {
        ConsumerBuilder { session_timeout_ms, ..self }
    }

    /// The key-value entries the broker client configuration is made of:
    /// every collected setting, in this order, with absent bootstrap, group
    /// and client ids written as empty text and the numeric and boolean
    /// settings spelled out in decimal and as `true`/`false`.
    pub fn config_entries(&self) -> (r: Vec<(String, String)>)
        ensures
            r@.len() == 11,
            r@[0].0@ == "bootstrap.servers"@,
            r@[0].1@ == (match self.bootstrap {
                Some(s) => s@,
                None => Seq::<char>::empty(),
            }),
            r@[1].0@ == "group.id"@,
            r@[1].1@ == (match self.group_id {
                Some(s) => s@,
                None => Seq::<char>::empty(),
            }),
            r@[2].0@ == "client.id"@,
            r@[2].1@ == (match self.client_id {
                Some(s) => s@,
                None => Seq::<char>::empty(),
            }),
            r@[3].0@ == "auto.offset.reset"@,
            r@[3].1@ == self.auto_offset_reset@,
            r@[4].0@ == "enable.auto.offset.store"@,
            r@[4].1@ == spec_bool_str(self.enable_auto_offset_store),
            r@[5].0@ == "enable.auto.commit"@,
            r@[5].1@ == spec_bool_str(self.enable_auto_commit),
            r@[6].0@ == "enable.partition.eof"@,
            r@[6].1@ == spec_bool_str(self.enable_partition_eof),
            r@[7].0@ == "auto.commit.interval.ms"@,
            r@[7].1@ == spec_int_str(self.auto_commit_interval_ms as int),
            r@[8].0@ == "max.poll.interval.ms"@,
            r@[8].1@ == spec_int_str(self.max_poll_interval_ms as int),
            r@[9].0@ == "session.timeout.ms"@,
            r@[9].1@ == spec_int_str(self.session_timeout_ms as int),
            r@[10].0@ == "heartbeat.interval.ms"@,
            r@[10].1@ == spec_int_str(self.heartbeat_interval_ms as int),
    {
        let mut entries: Vec<(String, String)> = Vec::new();
        let bootstrap = match &self.bootstrap {
            Some(s) => s.clone(),
            None => String::new(),
        };
        entries.push(("bootstrap.servers".to_owned(), bootstrap));
        let group_id = match &self.group_id {
            Some(s) => s.clone(),
            None => String::new(),
        };
        entries.push(("group.id".to_owned(), group_id));
        let client_id = match &self.client_id {
            Some(s) => s.clone(),
            None => String::new(),
        };
        entries.push(("client.id".to_owned(), client_id));
        entries.push(("auto.offset.reset".to_owned(), self.auto_offset_reset.clone()));
        entries.push(
            ("enable.auto.offset.store".to_owned(), format_bool(self.enable_auto_offset_store)),
        );
        entries.push(("enable.auto.commit".to_owned(), format_bool(self.enable_auto_commit)));
        entries.push(("enable.partition.eof".to_owned(), format_bool(self.enable_partition_eof)));
        entries.push(
            ("auto.commit.interval.ms".to_owned(), format_i32(self.auto_commit_interval_ms)),
        );
        entries.push(("max.poll.interval.ms".to_owned(), format_i32(self.max_poll_interval_ms)));
        entries.push(("session.timeout.ms".to_owned(), format_i32(self.session_timeout_ms)));
        entries.push(("heartbeat.interval.ms".to_owned(), format_i32(self.heartbeat_interval_ms)));
        entries
    }
}

} // verus!
