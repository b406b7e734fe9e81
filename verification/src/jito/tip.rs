//! The stream of recently landed tips.

use vstd::prelude::*;

verus! {

/// Recently landed tips, each in lamports.
#[derive(Debug)]
pub struct TipData {
    pub time: String,
    pub landed_tips_25th_percentile: u64,
    pub landed_tips_50th_percentile: u64,
    pub landed_tips_75th_percentile: u64,
    pub landed_tips_95th_percentile: u64,
    pub landed_tips_99th_percentile: u64,
    pub ema_landed_tips_50th_percentile: u64,
}

impl Clone for TipData {
    fn clone(&self) -> (out: TipData)
        ensures
            out == *self,
    {
        TipData {
            time: self.time.clone(),
            landed_tips_25th_percentile: self.landed_tips_25th_percentile,
            landed_tips_50th_percentile: self.landed_tips_50th_percentile,
            landed_tips_75th_percentile: self.landed_tips_75th_percentile,
            landed_tips_95th_percentile: self.landed_tips_95th_percentile,
            landed_tips_99th_percentile: self.landed_tips_99th_percentile,
            ema_landed_tips_50th_percentile: self.ema_landed_tips_50th_percentile,
        }
    }
}

/// The message of the error for a list without tips.
pub const NO_TIP: &'static str = "Failed to decode tip data";

/// The tip that counts in a decoded message: the last of its list.
pub fn decode_ws_tip<T>(decoded: Vec<T>) -> (out: Result<T, &'static str>)
    ensures
        match out {
            Ok(tip) => decoded@.len() > 0 && tip == decoded@.last(),
            Err(message) => decoded@.len() == 0 && message@ == NO_TIP@,
        },
{
    let mut decoded = decoded;
    match decoded.pop() {
        Some(tip) => Ok(tip),
        None => Err(NO_TIP),
    }
}

/// How often in a row a connection may fail before the stream ends.
pub const MAX_CONNECT_FAILURES: u32 = 5;

/// The pause after a failed connection, in seconds.
pub const CONNECT_PAUSE_SECS: u64 = 2;

/// How long the stream may stay silent before the tips are asked for, in
/// milliseconds.
pub const QUIET_MS: u64 = 300;

/// What comes of a connected tip stream.
#[derive(Clone, Copy, Debug, PartialEq, Eq, Structural)]
pub enum TipInput {
    /// A message that holds tips.
    Tip,
    /// A message that holds none.
    Undecodable,
    /// The other side pings.
    Ping,
    /// The other side closes the connection.
    Close,
    /// A message of another kind.
    Other,
    /// The connection failed.
    Error,
    /// The connection ended.
    End,
    /// No tip has come for a while.
    Quiet,
    /// It is time to ping.
    PingDue,
}

/// What the stream does about it.
#[derive(Clone, Copy, Debug, PartialEq, Eq, Structural)]
pub enum TipAction {
    /// Hand the tip on and restart the silence timer.
    Emit,
    /// Answer the ping.
    Pong,
    /// Send a ping.
    SendPing,
    /// Ask for the tips, hand on what comes, and restart the silence timer.
    Fetch,
    /// Connect anew.
    Reconnect,
    /// Nothing.
    Ignore,
}

/// What the stream does about an input.
pub open spec fn tip_action(input: TipInput) -> TipAction {
    match input {
        TipInput::Tip => TipAction::Emit,
        TipInput::Undecodable => TipAction::Ignore,
        TipInput::Ping => TipAction::Pong,
        TipInput::Close => TipAction::Reconnect,
        TipInput::Other => TipAction::Ignore,
        TipInput::Error => TipAction::Reconnect,
        TipInput::End => TipAction::Reconnect,
        TipInput::Quiet => TipAction::Fetch,
        TipInput::PingDue => TipAction::SendPing,
    }
}

/// The connection state of the tip stream: how often connecting has failed
/// since it last succeeded.
#[derive(Clone, Copy, Debug, PartialEq, Eq, Structural)]
pub struct TipStream {
    pub retries: u32,
}

impl TipStream {
    /// Whether the stream still connects.
    pub open spec fn alive(self) -> bool {
        self.retries < MAX_CONNECT_FAILURES
    }

    /// Whether a failed connection leads to a stream and a pause.
    pub open spec fn fails(self, after: TipStream, pause: Option<u64>) -> bool {
        &&& after.retries == self.retries + 1
        &&& pause == if after.alive() {
            Some(CONNECT_PAUSE_SECS)
        } else {
            None
        }
    }

    /// A stream that has not connected yet.
    pub fn start() -> (stream: TipStream)
        ensures
            stream.retries == 0,
            stream.alive(),
    {
        TipStream { retries: 0 }
    }

    /// The connection stands.
    pub fn connected(&mut self)
        ensures
            final(self).retries == 0,
            final(self).alive(),
    {
        self.retries = 0;
    }

    /// The connection failed. Gives the pause in seconds before the next try;
    /// there is none after too many failures in a row.
    pub fn connect_failed(&mut self) -> (pause: Option<u64>)
        requires
            old(self).alive(),
        ensures
            old(self).fails(*final(self), pause),
    {
        self.retries = self.retries + 1;
        if self.retries >= MAX_CONNECT_FAILURES {
            None
        } else {
            Some(CONNECT_PAUSE_SECS)
        }
    }

    /// What the connected stream does about an input.
    pub fn react(&self, input: TipInput) -> (action: TipAction)
        ensures
            action == tip_action(input),
    {
        match input {
            TipInput::Tip => TipAction::Emit,
            TipInput::Undecodable => TipAction::Ignore,
            TipInput::Ping => TipAction::Pong,
            TipInput::Close => TipAction::Reconnect,
            TipInput::Other => TipAction::Ignore,
            TipInput::Error => TipAction::Reconnect,
            TipInput::End => TipAction::Reconnect,
            TipInput::Quiet => TipAction::Fetch,
            TipInput::PingDue => TipAction::SendPing,
        }
    }
}

/// Tips are handed on, silence is broken by asking, pings are answered and sent,
/// a lost connection is made anew, and everything else is passed over.
pub proof fn inputs_are_answered(input: TipInput)
    ensures
        tip_action(input) == TipAction::Emit <==> input == TipInput::Tip,
        tip_action(input) == TipAction::Fetch <==> input == TipInput::Quiet,
        tip_action(input) == TipAction::Pong <==> input == TipInput::Ping,
        tip_action(input) == TipAction::SendPing <==> input == TipInput::PingDue,
        tip_action(input) == TipAction::Reconnect <==> input == TipInput::Close || input
            == TipInput::Error || input == TipInput::End,
        tip_action(input) == TipAction::Ignore <==> input == TipInput::Undecodable || input
            == TipInput::Other,
{
}

/// The stream connects up to five failures in a row, two seconds apart, and asks
/// for the tips after three tenths of a second of silence.
pub proof fn streams_give_up_after_five_failures(stream: TipStream)
    ensures
        stream.alive() <==> stream.retries < 5,
        CONNECT_PAUSE_SECS == 2,
        QUIET_MS == 300,
{
}

/// Each failure counts; the first four in a row are followed by a pause of two
/// seconds, the fifth by none.
pub proof fn failures_are_counted(stream: TipStream, after: TipStream, pause: Option<u64>)
    requires
        stream.fails(after, pause),
    ensures
        after.retries == stream.retries + 1,
        stream.retries < 4 ==> pause == Some(2u64),
        stream.retries >= 4 ==> pause is None,
{
}

} // verus!
