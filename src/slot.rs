//! One connection slot: the decisions of its open, handshake, authorisation
//! and dispatch sequence, as a state machine from event to action.
//!
//! The caller owns the socket, the timers, the token store and the HTTPS
//! client. It performs each action and hands back what came of it as the next
//! event.

use vstd::prelude::*;
use crate::codec::{Op, RpcPacket};
use crate::json::{
    authenticate_args, authenticate_text, authorize_args, authorize_text, command_body,
    command_text, fresh_nonce, handshake_body, handshake_text, nonce_bytes, nonce_text, Cmd,
};

verus! {

/// Seconds in the window before expiry in which a token is refreshed.
pub const REFRESH_WINDOW_SECS: i64 = 86400;

/// First reconnect delay, in milliseconds.
pub const BACKOFF_BASE_MS: u64 = 10;

/// Longest reconnect delay, in milliseconds.
pub const BACKOFF_CAP_MS: u64 = 60000;

/// Wait before opening a busy pipe again, in milliseconds.
pub const BUSY_RETRY_MS: u64 = 500;

/// What the rest of the program sees of a slot.
#[derive(Debug, Clone, Copy, PartialEq, Eq, Structural)]
pub enum SlotStatus {
    Opening,
    Open,
    Dead,
}

/// The moves a slot's status may make: `Opening` to `Open` or `Dead`, `Open`
/// back to `Opening`, or staying where it is.
pub open spec fn status_move(a: SlotStatus, b: SlotStatus) -> bool {
    a == b || (a == SlotStatus::Opening && (b == SlotStatus::Open || b == SlotStatus::Dead)) || (a
        == SlotStatus::Open && b == SlotStatus::Opening)
}

/// A stored OAuth token; `expires_at` is in seconds since the Unix epoch.
#[derive(Debug, Clone)]
pub struct Token {
    pub access_token: String,
    pub refresh_token: String,
    pub expires_at: i64,
}

/// What to do with the stored token when connecting.
#[derive(Debug, Clone, Copy, PartialEq, Eq, Structural)]
pub enum TokenPlan {
    /// No usable token: ask the user to authorise again.
    Authorize,
    /// The token expires within a day: refresh it silently.
    Refresh,
    /// The token is good as it is.
    Reuse,
}

/// The plan for `token` at time `now` (seconds since the Unix epoch).
pub open spec fn token_plan_spec(token: Option<Token>, now: i64) -> TokenPlan {
    match token {
        None => TokenPlan::Authorize,
        Some(t) => if t.expires_at < now {
            TokenPlan::Authorize
        } else if t.expires_at < now + REFRESH_WINDOW_SECS {
            TokenPlan::Refresh
        } else {
            TokenPlan::Reuse
        },
    }
}

/// Decides whether `token` is reused, refreshed or replaced at time `now`.
pub fn token_plan(token: &Option<Token>, now: i64) -> (r: TokenPlan)
    ensures
        r == token_plan_spec(*token, now),
{
    match token {
        None => TokenPlan::Authorize,
        Some(t) => {
            if t.expires_at < now {
                TokenPlan::Authorize
            } else if (t.expires_at as i128) < (now as i128) + (REFRESH_WINDOW_SECS as i128) {
                TokenPlan::Refresh
            } else {
                TokenPlan::Reuse
            }
        },
    }
}

/// The token that an OAuth grant issued at `now` describes, or `None` where
/// its expiry does not fit in an `i64`.
pub fn token_from_grant(access_token: String, refresh_token: String, now: i64, expires_in: i64) -> (r:
    Option<Token>)
    ensures
        now + expires_in <= i64::MAX && now + expires_in >= i64::MIN <==> r is Some,
        r matches Some(t) ==> t.access_token == access_token && t.refresh_token == refresh_token
            && t.expires_at == now + expires_in,
{
    let sum = now as i128 + expires_in as i128;
    if sum > i64::MAX as i128 || sum < i64::MIN as i128 {
        None
    } else {
        Some(Token { access_token, refresh_token, expires_at: sum as i64 })
    }
}

/// The reconnect delay after `failures` failed attempts in a row: 10 ms,
/// doubling each time, at most 60 s.
pub open spec fn backoff_spec(failures: nat) -> nat
    decreases failures,
{
    if failures == 0 {
        BACKOFF_BASE_MS as nat
    } else {
        let d = 2 * backoff_spec((failures - 1) as nat);
        if d > BACKOFF_CAP_MS {
            BACKOFF_CAP_MS as nat
        } else {
            d
        }
    }
}

proof fn lemma_backoff_bounds(failures: nat)
    ensures
        BACKOFF_BASE_MS <= backoff_spec(failures) <= BACKOFF_CAP_MS,
    decreases failures,
{
    if failures > 0 {
        lemma_backoff_bounds((failures - 1) as nat);
    }
}

proof fn lemma_backoff_capped(a: nat, b: nat)
    requires
        backoff_spec(a) == BACKOFF_CAP_MS,
        a <= b,
    ensures
        backoff_spec(b) == BACKOFF_CAP_MS,
    decreases b - a,
{
    if a < b {
        lemma_backoff_capped(a, (b - 1) as nat);
    }
}

/// The reconnect delay after `failures` failed attempts in a row.
pub fn backoff_ms(failures: u32) -> (r: u64)
    ensures
        r == backoff_spec(failures as nat),
{
    let mut d: u64 = BACKOFF_BASE_MS;
    let mut i: u32 = 0;
    while i < failures && d < BACKOFF_CAP_MS
        invariant
            i <= failures,
            d == backoff_spec(i as nat),
        decreases failures - i,
    {
        proof {
            lemma_backoff_bounds(i as nat);
        }
        d = if 2 * d > BACKOFF_CAP_MS {
            BACKOFF_CAP_MS
        } else {
            2 * d
        };
        i += 1;
    }
    proof {
        lemma_backoff_bounds(i as nat);
        if i < failures {
            lemma_backoff_capped(i as nat, failures as nat);
        }
    }
    d
}

/// Every run of a slot starts `Opening` and moves only as `status_move`
/// allows, so a slot that is once `Dead` is `Dead` ever after.
pub proof fn lemma_dead_is_final(path: Seq<SlotStatus>, i: int, j: int)
    requires
        forall|k: int| 0 <= k < path.len() - 1 ==> #[trigger] status_move(path[k], path[k + 1]),
        0 <= i <= j < path.len(),
        path[i] == SlotStatus::Dead,
    ensures
        path[j] == SlotStatus::Dead,
    decreases j - i,
{
    if i < j {
        lemma_dead_is_final(path, i, j - 1);
        let k = j - 1;
        assert(status_move(path[k], path[k + 1]));
        assert(k + 1 == j);
    }
}

/// How opening the slot's socket went.
#[derive(Debug, Clone, Copy, PartialEq, Eq, Structural)]
pub enum OpenOutcome {
    Opened,
    /// No socket or pipe exists at the slot's address.
    NotFound,
    /// The pipe exists but is busy.
    Busy,
    /// Any other error.
    Failed,
}

/// Where a slot is in its sequence.
#[derive(Debug, Clone)]
pub enum Phase {
    /// Not connected; the next `Start` opens the socket.
    Idle,
    /// Waiting for the socket to open.
    Connecting,
    /// The handshake is written; the server's ready event is awaited.
    AwaitReady,
    /// The stored token is being loaded.
    LoadingToken,
    /// `AUTHORIZE` is written; its response, with this nonce, is awaited.
    Authorizing(Vec<u8>),
    /// A code exchange or a refresh is under way.
    Exchanging,
    /// `AUTHENTICATE` is written; its response, with this nonce, is awaited.
    Authenticating(Vec<u8>),
    /// Open: commands are written as they come.
    Dispatching,
    /// The slot's address does not exist; nothing more happens.
    Retired,
}

/// The status that a phase shows.
pub open spec fn phase_status(p: Phase) -> SlotStatus {
    match p {
        Phase::Dispatching => SlotStatus::Open,
        Phase::Retired => SlotStatus::Dead,
        _ => SlotStatus::Opening,
    }
}

/// What happened, as the caller observed it.
#[derive(Debug)]
pub enum Event {
    /// Time to open the socket: at launch, and after a reconnect delay.
    Start,
    /// The outcome of opening the socket.
    Opened(OpenOutcome),
    /// A packet came in. `nonce` is the nonce its body carries, `code` the
    /// authorisation code in its data, and `error` tells an error response.
    Received { op: Op, body: Vec<u8>, nonce: Option<Vec<u8>>, code: Option<String>, error: bool },
    /// The stored token, if any, and the time now in seconds.
    TokenLoaded { token: Option<Token>, now: i64 },
    /// A code exchange or refresh gave this token.
    TokenGranted(Token),
    /// A code exchange or refresh failed.
    TokenFailed,
    /// A command to write to the server.
    Send { cmd: Cmd, args: Vec<u8> },
    /// Reading or writing the socket failed, or the server hung up.
    Failed,
}

/// What the caller is to do next.
#[derive(Debug)]
pub enum Action {
    Nothing,
    /// Open the slot's socket and report with `Opened`.
    OpenPipe,
    /// Wait this many milliseconds, then open the socket again.
    OpenPipeAfter(u64),
    /// Write this packet.
    Write(RpcPacket),
    /// Load the stored token and report with `TokenLoaded`.
    LoadToken,
    /// Exchange this authorisation code for a token.
    ExchangeCode(String),
    /// Refresh with this refresh token.
    RefreshToken(String),
    /// Persist the token, then write the packet.
    StoreAndWrite(Token, RpcPacket),
    /// Close the socket, wait this many milliseconds, then `Start` again.
    Reconnect(u64),
    /// The slot is dead: close its queue and stop.
    Retire,
}

/// The command packet that the connection writes for `cmd` with `args`,
/// stamped with the nonce `n`.
pub open spec fn command_packet(n: u128, cmd: Cmd, args: Seq<u8>) -> (Op, Seq<u8>) {
    (Op::Frame, command_text(nonce_text(n), args, cmd))
}

/// The per-slot state machine.
#[derive(Debug)]
pub struct Session {
    pub id: u8,
    pub client_id: u64,
    pub phase: Phase,
    /// Failed attempts since the slot was last open.
    pub failures: u32,
}

/// Whether two byte strings are equal.
fn same_bytes(a: &Vec<u8>, b: &Vec<u8>) -> (r: bool)
    ensures
        r == (a@ == b@),
{
    if a.len() != b.len() {
        return false;
    }
    let mut i: usize = 0;
    while i < a.len()
        invariant
            a@.len() == b@.len(),
            i <= a@.len(),
            forall|j: int| 0 <= j < i ==> a@[j] == b@[j],
        decreases a@.len() - i,
    {
        if a[i] != b[i] {
            return false;
        }
        i += 1;
    }
    assert(a@ =~= b@);
    true
}

/// The nonce's text and the packet that writes `cmd` with `args` under it.
fn command(n: u128, cmd: Cmd, args: &Vec<u8>) -> (r: (Vec<u8>, RpcPacket))
    ensures
        r.0@ == nonce_text(n),
        r.1@ == command_packet(n, cmd, args@),
{
    let nonce = nonce_bytes(n);
    let body = command_body(&nonce, args, cmd);
    (nonce, RpcPacket { op: Op::Frame, data: body })
}

impl Session {
    /// A slot that has not opened its socket yet.
    pub fn new(id: u8, client_id: u64) -> (r: Session)
        ensures
            r.id == id,
            r.client_id == client_id,
            r.phase is Idle,
            r.failures == 0,
            phase_status(r.phase) == SlotStatus::Opening,
    {
        Session { id, client_id, phase: Phase::Idle, failures: 0 }
    }

    pub open spec fn status_spec(&self) -> SlotStatus {
        phase_status(self.phase)
    }

    pub fn status(&self) -> (r: SlotStatus)
        ensures
            r == self.status_spec(),
    {
        match self.phase {
            Phase::Dispatching => SlotStatus::Open,
            Phase::Retired => SlotStatus::Dead,
            _ => SlotStatus::Opening,
        }
    }

    /// Leaves the live sequence after a failure: back to `Idle`, with the
    /// reconnect delay that the failure count gives.
    fn fail(&mut self) -> (r: Action)
        ensures
            final(self).phase is Idle,
            final(self).id == old(self).id,
            final(self).client_id == old(self).client_id,
            final(self).failures == if old(self).failures == u32::MAX {
                u32::MAX
            } else {
                (old(self).failures + 1) as u32
            },
            r == Action::Reconnect(backoff_spec(old(self).failures as nat) as u64),
    {
        let d = backoff_ms(self.failures);
        self.failures = self.failures.saturating_add(1);
        self.phase = Phase::Idle;
        Action::Reconnect(d)
    }

    /// Handles one event with a fresh nonce for any command it writes: the
    /// move is `transition` for some nonce, so every clause of it that does
    /// not name the nonce holds as stated.
    pub fn on_event(&mut self, ev: Event) -> (r: Action)
        ensures
            exists|n: u128| #[trigger] transition(*old(self), *final(self), ev, n, r),
    {
        let n = fresh_nonce();
        self.on_event_with_nonce(ev, n)
    }

    /// Handles one event; a command it writes carries the nonce `n`.
    pub fn on_event_with_nonce(&mut self, ev: Event, n: u128) -> (r: Action)
        ensures
            transition(*old(self), *final(self), ev, n, r),
    {
        let mut phase = Phase::Idle;
        core::mem::swap(&mut self.phase, &mut phase);
        if let Phase::Retired = phase {
            self.phase = Phase::Retired;
            return Action::Retire;
        }
        match ev {
            Event::Start => {
                if let Phase::Idle = phase {
                    self.phase = Phase::Connecting;
                    Action::OpenPipe
                } else {
                    self.phase = phase;
                    Action::Nothing
                }
            },
            Event::Opened(o) => {
                if let Phase::Connecting = phase {
                    match o {
                        OpenOutcome::Opened => {
                            self.phase = Phase::AwaitReady;
                            Action::Write(
                                RpcPacket { op: Op::Handshake, data: handshake_body(self.client_id) },
                            )
                        },
                        OpenOutcome::NotFound => {
                            self.phase = Phase::Retired;
                            Action::Retire
                        },
                        OpenOutcome::Busy => {
                            self.phase = Phase::Connecting;
                            Action::OpenPipeAfter(BUSY_RETRY_MS)
                        },
                        OpenOutcome::Failed => self.fail(),
                    }
                } else {
                    self.phase = phase;
                    Action::Nothing
                }
            },
            Event::Received { op, body, nonce, code, error } => {
                match phase {
                    Phase::Idle | Phase::Connecting => {
                        self.phase = phase;
                        Action::Nothing
                    },
                    Phase::AwaitReady => {
                        self.phase = Phase::LoadingToken;
                        Action::LoadToken
                    },
                    _ => match op {
                        Op::Ping => {
                            self.phase = phase;
                            Action::Write(RpcPacket { op: Op::Pong, data: body })
                        },
                        Op::Close => self.fail(),
                        Op::Frame => self.on_response(phase, nonce, code, error),
                        _ => {
                            self.phase = phase;
                            Action::Nothing
                        },
                    },
                }
            },
            Event::TokenLoaded { token, now } => {
                if let Phase::LoadingToken = phase {
                    match token_plan(&token, now) {
                        TokenPlan::Authorize => {
                            let args = authorize_args(self.client_id);
                            let (nonce, packet) = command(n, Cmd::Authorize, &args);
                            self.phase = Phase::Authorizing(nonce);
                            Action::Write(packet)
                        },
                        TokenPlan::Refresh => {
                            self.phase = Phase::Exchanging;
                            match token {
                                Some(t) => Action::RefreshToken(t.refresh_token),
                                None => Action::Nothing,
                            }
                        },
                        TokenPlan::Reuse => match token {
                            Some(t) => self.authenticate(t, n),
                            None => Action::Nothing,
                        },
                    }
                } else {
                    self.phase = phase;
                    Action::Nothing
                }
            },
            Event::TokenGranted(t) => {
                if let Phase::Exchanging = phase {
                    self.authenticate(t, n)
                } else {
                    self.phase = phase;
                    Action::Nothing
                }
            },
            Event::TokenFailed => {
                if let Phase::Exchanging = phase {
                    self.fail()
                } else {
                    self.phase = phase;
                    Action::Nothing
                }
            },
            Event::Send { cmd, args } => {
                if let Phase::Dispatching = phase {
                    self.phase = Phase::Dispatching;
                    let (_, packet) = command(n, cmd, &args);
                    Action::Write(packet)
                } else {
                    self.phase = phase;
                    Action::Nothing
                }
            },
            Event::Failed => {
                match phase {
                    Phase::Idle | Phase::Connecting => {
                        self.phase = phase;
                        Action::Nothing
                    },
                    _ => self.fail(),
                }
            },
        }
    }

    /// Writes `AUTHENTICATE` with `t` and has `t` stored first.
    fn authenticate(&mut self, t: Token, n: u128) -> (r: Action)
        ensures
            final(self).id == old(self).id,
            final(self).client_id == old(self).client_id,
            final(self).phase matches Phase::Authenticating(w) && w@ == nonce_text(n),
            r matches Action::StoreAndWrite(s, p) && s == t && p@ == command_packet(
                n,
                Cmd::Authenticate,
                authenticate_text(t.access_token@),
            ),
            final(self).failures == old(self).failures,
    {
        let args = authenticate_args(t.access_token.as_str());
        let (nonce, packet) = command(n, Cmd::Authenticate, &args);
        self.phase = Phase::Authenticating(nonce);
        Action::StoreAndWrite(t, packet)
    }

    /// A response frame while the handshake is answered; `phase` is the phase
    /// it came in, taken out of `self`.
    fn on_response(&mut self, phase: Phase, nonce: Option<Vec<u8>>, code: Option<String>, error: bool) -> (r: Action)
        requires
            live_phase(phase),
        ensures
            final(self).id == old(self).id,
            final(self).client_id == old(self).client_id,
            status_move(phase_status(phase), phase_status(final(self).phase)),
            phase matches Phase::Authorizing(w) ==> (nonce matches Some(m) ==> if m@ != w@ {
                final(self).phase == phase && r is Nothing
            } else if !error && code is Some {
                final(self).phase is Exchanging && r == Action::ExchangeCode(code->Some_0)
            } else {
                final(self).phase is Idle && r is Reconnect
            }),
            phase matches Phase::Authenticating(w) ==> (nonce matches Some(m) ==> if m@ != w@ {
                final(self).phase == phase && r is Nothing
            } else if !error {
                final(self).phase is Dispatching && final(self).failures == 0 && r is Nothing
            } else {
                final(self).phase is Idle && r is Reconnect
            }),
            !(phase is Authorizing || phase is Authenticating) ==> final(self).phase == phase
                && r is Nothing,
            final(self).phase is Idle ==> final(self).failures == if old(self).failures == u32::MAX {
                u32::MAX
            } else {
                (old(self).failures + 1) as u32
            },
            !(final(self).phase is Idle) && !(phase is Authenticating && final(self).phase is Dispatching)
                ==> final(self).failures == old(self).failures,
    {
        match phase {
            Phase::Authorizing(w) => {
                let matched = match &nonce {
                    Some(m) => same_bytes(m, &w),
                    None => false,
                };
                if !matched {
                    self.phase = Phase::Authorizing(w);
                    Action::Nothing
                } else {
                    match code {
                        Some(c) => {
                            if error {
                                self.fail()
                            } else {
                                self.phase = Phase::Exchanging;
                                Action::ExchangeCode(c)
                            }
                        },
                        None => self.fail(),
                    }
                }
            },
            Phase::Authenticating(w) => {
                let matched = match &nonce {
                    Some(m) => same_bytes(m, &w),
                    None => false,
                };
                if !matched {
                    self.phase = Phase::Authenticating(w);
                    Action::Nothing
                } else if error {
                    self.fail()
                } else {
                    self.phase = Phase::Dispatching;
                    self.failures = 0;
                    Action::Nothing
                }
            },
            other => {
                self.phase = other;
                Action::Nothing
            },
        }
    }
}

/// What one event does to a slot that was `s0`: it becomes `s1` and the
/// caller is told to do `r`; a command written carries the nonce `n`.
pub open spec fn transition(s0: Session, s1: Session, ev: Event, n: u128, r: Action) -> bool {
    &&& (s1.id == s0.id)
    &&& (s1.client_id == s0.client_id)
    &&& (status_move(s0.status_spec(), s1.status_spec()))
    // a dead slot stays dead and does nothing
    &&& (s0.phase is Retired ==> s1.phase is Retired && r is Retire)
    // opening the socket
    &&& (s0.phase is Idle ==> (ev is Start ==> s1.phase is Connecting
        && r is OpenPipe))
    &&& (s0.phase is Connecting ==> (ev matches Event::Opened(o) ==> match o {
        OpenOutcome::Opened => s1.phase is AwaitReady && (r matches Action::Write(p) && p@ == (
            Op::Handshake,
            handshake_text(s0.client_id),
        )),
        OpenOutcome::NotFound => s1.phase is Retired && r is Retire,
        OpenOutcome::Busy => s1.phase is Connecting && r == Action::OpenPipeAfter(
            BUSY_RETRY_MS,
        ),
        OpenOutcome::Failed => s1.phase is Idle && r == Action::Reconnect(
            backoff_spec(s0.failures as nat) as u64,
        ),
    }))
    // the server's ready event is read and dropped
    &&& (s0.phase is AwaitReady ==> (ev is Received ==> s1.phase is LoadingToken
        && r is LoadToken))
    // the stored token decides how to authenticate
    &&& (s0.phase is LoadingToken ==> (ev matches Event::TokenLoaded { token, now } ==> {
        match token_plan_spec(token, now) {
            TokenPlan::Authorize => (s1.phase matches Phase::Authorizing(w) && w@
                == nonce_text(n)) && (r matches Action::Write(p) && p@ == command_packet(
                n,
                Cmd::Authorize,
                authorize_text(s0.client_id),
            )),
            TokenPlan::Refresh => s1.phase is Exchanging && r
                == Action::RefreshToken(token->Some_0.refresh_token),
            TokenPlan::Reuse => ((s1.phase matches Phase::Authenticating(w) && w@
                == nonce_text(n)) && (r matches Action::StoreAndWrite(t, p) && t
                == token->Some_0 && p@ == command_packet(
                n,
                Cmd::Authenticate,
                authenticate_text(t.access_token@),
            ))),
        }
    }))
    // a token from an exchange or a refresh is stored, then used
    &&& (s0.phase is Exchanging ==> match ev {
        Event::TokenGranted(t) => ((s1.phase matches Phase::Authenticating(w) && w@
            == nonce_text(n)) && (r matches Action::StoreAndWrite(s, p) && s == t && p@
            == command_packet(n, Cmd::Authenticate, authenticate_text(t.access_token@)))),
        Event::TokenFailed => s1.phase is Idle && r is Reconnect,
        _ => true,
    })
    // the response to the awaited request moves the sequence on
    &&& (s0.phase matches Phase::Authorizing(w) ==> (ev matches Event::Received {
        op: Op::Frame,
        nonce: Some(m),
        code,
        error,
        ..
    } ==> if m@ != w@ {
        s1.phase == s0.phase && r is Nothing
    } else if !error && code is Some {
        s1.phase is Exchanging && r == Action::ExchangeCode(code->Some_0)
    } else {
        s1.phase is Idle && r is Reconnect
    }))
    &&& (s0.phase matches Phase::Authenticating(w) ==> (ev matches Event::Received {
        op: Op::Frame,
        nonce: Some(m),
        error,
        ..
    } ==> if m@ != w@ {
        s1.phase == s0.phase && r is Nothing
    } else if !error {
        s1.phase is Dispatching && s1.failures == 0 && r is Nothing
    } else {
        s1.phase is Idle && r is Reconnect
    }))
    // once the handshake is answered: pings are echoed, a close or a
    // failure reconnects
    &&& (live_phase(s0.phase) ==> match ev {
        Event::Received { op: Op::Ping, body, .. } => s1.phase == s0.phase
            && (r matches Action::Write(p) && p@ == (Op::Pong, body@)),
        Event::Received { op: Op::Close, .. } => s1.phase is Idle && r is Reconnect,
        _ => true,
    })
    &&& (connected_phase(s0.phase) ==> (ev is Failed ==> s1.phase is Idle && r
        == Action::Reconnect(backoff_spec(s0.failures as nat) as u64)))
    // an event that the phase does not wait for changes nothing
    &&& (!(s0.phase is Retired) && !awaited(s0.phase, ev) ==> s1.phase
        == s0.phase && s1.failures == s0.failures && r is Nothing)
    // failures are counted until the slot is open again
    &&& (s1.phase is Idle && !(s0.phase is Idle) ==> s1.failures
        == if s0.failures == u32::MAX {
        u32::MAX
    } else {
        (s0.failures + 1) as u32
    })
    &&& (!(s1.phase is Idle) && !(s1.phase is Dispatching
        && !(s0.phase is Dispatching)) ==> s1.failures == s0.failures)
    // commands go out only while open, each as one frame with its own nonce
    &&& (ev matches Event::Send { cmd, args } ==> if s0.phase is Dispatching {
        s1.phase is Dispatching && (r matches Action::Write(p) && p@
            == command_packet(n, cmd, args@))
    } else if s0.phase is Retired {
        r is Retire
    } else {
        r is Nothing && s1.phase == s0.phase
    })
}

/// Whether `phase` waits for events of the kind of `ev`.
pub open spec fn awaited(phase: Phase, ev: Event) -> bool {
    match ev {
        Event::Start => phase is Idle,
        Event::Opened(_) => phase is Connecting,
        Event::Received { op, .. } => phase is AwaitReady || (live_phase(phase) && (op == Op::Ping
            || op == Op::Close || (op == Op::Frame && (phase is Authorizing
            || phase is Authenticating)))),
        Event::TokenLoaded { .. } => phase is LoadingToken,
        Event::TokenGranted(_) | Event::TokenFailed => phase is Exchanging,
        Event::Send { .. } => phase is Dispatching,
        Event::Failed => connected_phase(phase),
    }
}

/// Phases in which the socket is open.
pub open spec fn connected_phase(p: Phase) -> bool {
    !(p is Idle || p is Connecting || p is Retired)
}

/// Phases in which the socket is open and the handshake answered.
pub open spec fn live_phase(p: Phase) -> bool {
    connected_phase(p) && !(p is AwaitReady)
}

} // verus!
