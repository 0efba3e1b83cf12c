//! The authorization driver: a state machine that turns the external
//! library's authorization-state notifications into requests and prompts.

use vstd::prelude::*;
use crate::ShutdownFlag;

verus! {

/// The external library's authentication phase, as far as the driver reads
/// it. Every state the library may report beyond these maps to `Other`.
#[derive(Clone, Copy, PartialEq, Eq, Structural, Debug)]
pub enum AuthState {
    NeedsParameters,
    NeedsPhoneNumber,
    NeedsVerificationCode,
    Ready,
    Closed,
    Other,
}

/// What the driver does in answer to one authorization state.
#[derive(Clone, Copy, PartialEq, Eq, Structural, Debug)]
pub enum AuthAction {
    /// Issue the session-parameter request; a rejection is only reported.
    SetParameters,
    /// Prompt the operator for a phone number and submit it until accepted.
    PromptPhoneNumber,
    /// Prompt the operator for a verification code and submit it until accepted.
    PromptVerificationCode,
    /// The session is usable: leave the driver loop.
    FinishReady,
    /// The session ended: raise the shutdown flag and leave the driver loop.
    FinishClosed,
    /// Wait for the next notification.
    Ignore,
}

/// The driver's transition table: the action owed to each state.
pub open spec fn spec_auth_action(state: AuthState) -> AuthAction {
    match state {
        AuthState::NeedsParameters => AuthAction::SetParameters,
        AuthState::NeedsPhoneNumber => AuthAction::PromptPhoneNumber,
        AuthState::NeedsVerificationCode => AuthAction::PromptVerificationCode,
        AuthState::Ready => AuthAction::FinishReady,
        AuthState::Closed => AuthAction::FinishClosed,
        AuthState::Other => AuthAction::Ignore,
    }
}

/// Decides what the driver does with one inbound authorization state.
pub fn auth_action(state: AuthState) -> (action: AuthAction)
    ensures
        action == spec_auth_action(state),
{
    match state {
        AuthState::NeedsParameters => AuthAction::SetParameters,
        AuthState::NeedsPhoneNumber => AuthAction::PromptPhoneNumber,
        AuthState::NeedsVerificationCode => AuthAction::PromptVerificationCode,
        AuthState::Ready => AuthAction::FinishReady,
        AuthState::Closed => AuthAction::FinishClosed,
        AuthState::Other => AuthAction::Ignore,
    }
}

/// Index of the first accepted submission at or after `start`, if there is
/// one in the scripted answers `accepts`.
pub open spec fn first_accept(accepts: Seq<bool>, start: int) -> Option<int>
    decreases accepts.len() - start,
{
    if start < 0 || start >= accepts.len() {
        None
    } else if accepts[start] {
        Some(start)
    } else {
        first_accept(accepts, start + 1)
    }
}

/// How often the retry loop prompts when the library's answers, from
/// `start` on, are `accepts`: once per answer up to and including the first
/// acceptance, or once per remaining answer if none is accepted.
pub open spec fn spec_prompts(accepts: Seq<bool>, start: int) -> int {
    match first_accept(accepts, start) {
        Some(j) => j - start + 1,
        None => accepts.len() - start,
    }
}

pub proof fn lemma_first_accept_props(accepts: Seq<bool>, start: int)
    requires
        0 <= start,
    ensures
        match first_accept(accepts, start) {
            Some(j) => start <= j < accepts.len() && accepts[j]
                && (forall|k: int| start <= k < j ==> !accepts[k]),
            None => forall|k: int| start <= k < accepts.len() ==> !accepts[k],
        },
    decreases accepts.len() - start,
{
    if start < accepts.len() && !accepts[start] {
        lemma_first_accept_props(accepts, start + 1);
    }
}

/// After a run of rejected submissions, one accepted submission ends the
/// retry loop: `rejections` failing answers followed by an accepted one
/// make exactly `rejections + 1` prompts.
pub proof fn lemma_prompts_count_rejections(accepts: Seq<bool>, start: int, rejections: int)
    requires
        0 <= start,
        0 <= rejections,
        start + rejections < accepts.len(),
        forall|k: int| start <= k < start + rejections ==> !accepts[k],
        accepts[start + rejections],
    ensures
        first_accept(accepts, start) == Some(start + rejections),
        spec_prompts(accepts, start) == rejections + 1,
    decreases rejections,
{
    if rejections > 0 {
        lemma_prompts_count_rejections(accepts, start + 1, rejections - 1);
    }
}

/// What one prompt-and-submit retry round came to: how often the operator
/// was prompted, and whether a submission was accepted in the end.
#[derive(Clone, Copy, PartialEq, Eq, Structural, Debug)]
pub struct PromptOutcome {
    pub prompts: usize,
    pub accepted: bool,
}

/// Runs one retry round against the scripted answers `accepts`, starting
/// at `start`: each prompt submits one answer, and prompting repeats until
/// a submission is accepted or the answers run out.
pub fn prompt_until_accepted(accepts: &Vec<bool>, start: usize) -> (r: PromptOutcome)
    requires
        start <= accepts@.len(),
    ensures
        r.prompts == spec_prompts(accepts@, start as int),
        r.accepted == first_accept(accepts@, start as int) is Some,
        r.accepted ==> first_accept(accepts@, start as int)
            == Some(start + r.prompts - 1),
{
    let mut k: usize = start;
    loop
        invariant
            start <= k <= accepts@.len(),
            first_accept(accepts@, start as int) == first_accept(accepts@, k as int),
        decreases accepts@.len() - k,
    {
        if k == accepts.len() {
            return PromptOutcome { prompts: k - start, accepted: false };
        }
        if accepts[k] {
            return PromptOutcome { prompts: k - start + 1, accepted: true };
        }
        k = k + 1;
    }
}

/// How one run of the driver ended.
#[derive(Clone, Copy, PartialEq, Eq, Structural, Debug)]
pub enum DriveOutcome {
    /// A Ready state arrived: the session is usable.
    ReachedReady,
    /// A Closed state arrived: the shutdown flag was raised.
    ReachedClosed,
    /// The state channel ended before Ready or Closed arrived.
    Drained,
    /// A retry round ran out of scripted answers before one was accepted;
    /// the live driver would still be prompting at this point.
    Stalled,
}

/// What one run of the driver did, at the model level.
pub struct DriveModel {
    pub outcome: DriveOutcome,
    pub states_consumed: int,
    pub param_calls: int,
    pub phone_prompts: int,
    pub code_prompts: int,
    pub shutdown: bool,
}

/// What one run of the driver did: how it ended, how many states it
/// consumed, and how many requests and prompts it issued.
#[derive(Clone, Copy, PartialEq, Eq, Structural, Debug)]
pub struct DriveReport {
    pub outcome: DriveOutcome,
    pub states_consumed: usize,
    pub param_calls: usize,
    pub phone_prompts: usize,
    pub code_prompts: usize,
}

/// The driver over the states from `i` on, with the phone and code answer
/// scripts read from `p` and `c` on: each state is consumed once and
/// handled as the transition table says, until Ready or Closed arrives or
/// the states run out.
pub open spec fn spec_drive(
    states: Seq<AuthState>,
    i: int,
    phone: Seq<bool>,
    p: int,
    code: Seq<bool>,
    c: int,
) -> DriveModel
    decreases states.len() - i,
{
    if i < 0 || i >= states.len() {
        DriveModel {
            outcome: DriveOutcome::Drained,
            states_consumed: 0,
            param_calls: 0,
            phone_prompts: 0,
            code_prompts: 0,
            shutdown: false,
        }
    } else {
        match states[i] {
            AuthState::Ready => DriveModel {
                outcome: DriveOutcome::ReachedReady,
                states_consumed: 1,
                param_calls: 0,
                phone_prompts: 0,
                code_prompts: 0,
                shutdown: false,
            },
            AuthState::Closed => DriveModel {
                outcome: DriveOutcome::ReachedClosed,
                states_consumed: 1,
                param_calls: 0,
                phone_prompts: 0,
                code_prompts: 0,
                shutdown: true,
            },
            AuthState::NeedsParameters => {
                let rest = spec_drive(states, i + 1, phone, p, code, c);
                DriveModel {
                    outcome: rest.outcome,
                    states_consumed: rest.states_consumed + 1,
                    param_calls: rest.param_calls + 1,
                    phone_prompts: rest.phone_prompts,
                    code_prompts: rest.code_prompts,
                    shutdown: rest.shutdown,
                }
            },
            AuthState::NeedsPhoneNumber => match first_accept(phone, p) {
                Some(j) => {
                    let rest = spec_drive(states, i + 1, phone, j + 1, code, c);
                    DriveModel {
                        outcome: rest.outcome,
                        states_consumed: rest.states_consumed + 1,
                        param_calls: rest.param_calls,
                        phone_prompts: rest.phone_prompts + (j - p + 1),
                        code_prompts: rest.code_prompts,
                        shutdown: rest.shutdown,
                    }
                },
                None => DriveModel {
                    outcome: DriveOutcome::Stalled,
                    states_consumed: 1,
                    param_calls: 0,
                    phone_prompts: phone.len() - p,
                    code_prompts: 0,
                    shutdown: false,
                },
            },
            AuthState::NeedsVerificationCode => match first_accept(code, c) {
                Some(j) => {
                    let rest = spec_drive(states, i + 1, phone, p, code, j + 1);
                    DriveModel {
                        outcome: rest.outcome,
                        states_consumed: rest.states_consumed + 1,
                        param_calls: rest.param_calls,
                        phone_prompts: rest.phone_prompts,
                        code_prompts: rest.code_prompts + (j - c + 1),
                        shutdown: rest.shutdown,
                    }
                },
                None => DriveModel {
                    outcome: DriveOutcome::Stalled,
                    states_consumed: 1,
                    param_calls: 0,
                    phone_prompts: 0,
                    code_prompts: code.len() - c,
                    shutdown: false,
                },
            },
            AuthState::Other => {
                let rest = spec_drive(states, i + 1, phone, p, code, c);
                DriveModel {
                    outcome: rest.outcome,
                    states_consumed: rest.states_consumed + 1,
                    param_calls: rest.param_calls,
                    phone_prompts: rest.phone_prompts,
                    code_prompts: rest.code_prompts,
                    shutdown: rest.shutdown,
                }
            },
        }
    }
}

/// Every count the driver produces stays within the inputs it read.
pub proof fn lemma_drive_bounds(
    states: Seq<AuthState>,
    i: int,
    phone: Seq<bool>,
    p: int,
    code: Seq<bool>,
    c: int,
)
    requires
        0 <= i <= states.len(),
        0 <= p <= phone.len(),
        0 <= c <= code.len(),
    ensures
        ({
            let m = spec_drive(states, i, phone, p, code, c);
            &&& 0 <= m.states_consumed <= states.len() - i
            &&& 0 <= m.param_calls <= states.len() - i
            &&& 0 <= m.phone_prompts <= phone.len() - p
            &&& 0 <= m.code_prompts <= code.len() - c
        }),
    decreases states.len() - i,
{
    if i < states.len() {
        match states[i] {
            AuthState::Ready => {},
            AuthState::Closed => {},
            AuthState::NeedsParameters => {
                lemma_drive_bounds(states, i + 1, phone, p, code, c);
            },
            AuthState::NeedsPhoneNumber => {
                lemma_first_accept_props(phone, p);
                match first_accept(phone, p) {
                    Some(j) => {
                        lemma_drive_bounds(states, i + 1, phone, j + 1, code, c);
                    },
                    None => {},
                }
            },
            AuthState::NeedsVerificationCode => {
                lemma_first_accept_props(code, c);
                match first_accept(code, c) {
                    Some(j) => {
                        lemma_drive_bounds(states, i + 1, phone, p, code, j + 1);
                    },
                    None => {},
                }
            },
            AuthState::Other => {
                lemma_drive_bounds(states, i + 1, phone, p, code, c);
            },
        }
    }
}

fn drive_from(
    states: &Vec<AuthState>,
    i: usize,
    phone: &Vec<bool>,
    p: usize,
    code: &Vec<bool>,
    c: usize,
    flag: &mut ShutdownFlag,
) -> (r: DriveReport)
    requires
        i <= states@.len(),
        p <= phone@.len(),
        c <= code@.len(),
    ensures
        ({
            let m = spec_drive(states@, i as int, phone@, p as int, code@, c as int);
            &&& r.outcome == m.outcome
            &&& r.states_consumed == m.states_consumed
            &&& r.param_calls == m.param_calls
            &&& r.phone_prompts == m.phone_prompts
            &&& r.code_prompts == m.code_prompts
            &&& final(flag)@ == (old(flag)@ || m.shutdown)
        }),
    decreases states@.len() - i,
{
    if i == states.len() {
        return DriveReport {
            outcome: DriveOutcome::Drained,
            states_consumed: 0,
            param_calls: 0,
            phone_prompts: 0,
            code_prompts: 0,
        };
    }
    match states[i] {
        AuthState::Ready => DriveReport {
            outcome: DriveOutcome::ReachedReady,
            states_consumed: 1,
            param_calls: 0,
            phone_prompts: 0,
            code_prompts: 0,
        },
        AuthState::Closed => {
            flag.raise();
            DriveReport {
                outcome: DriveOutcome::ReachedClosed,
                states_consumed: 1,
                param_calls: 0,
                phone_prompts: 0,
                code_prompts: 0,
            }
        },
        AuthState::NeedsParameters => {
            let rest = drive_from(states, i + 1, phone, p, code, c, flag);
            proof {
                lemma_drive_bounds(states@, i + 1, phone@, p as int, code@, c as int);
            }
            DriveReport {
                outcome: rest.outcome,
                states_consumed: rest.states_consumed + 1,
                param_calls: rest.param_calls + 1,
                phone_prompts: rest.phone_prompts,
                code_prompts: rest.code_prompts,
            }
        },
        AuthState::NeedsPhoneNumber => {
            let phone_len: usize = phone.len();
            let round = prompt_until_accepted(phone, p);
            proof {
                lemma_first_accept_props(phone@, p as int);
                assert(phone@.len() == phone_len);
            }
            if round.accepted {
                let rest = drive_from(states, i + 1, phone, p + round.prompts, code, c, flag);
                proof {
                    lemma_drive_bounds(
                        states@, i + 1, phone@, p + round.prompts, code@, c as int,
                    );
                }
                DriveReport {
                    outcome: rest.outcome,
                    states_consumed: rest.states_consumed + 1,
                    param_calls: rest.param_calls,
                    phone_prompts: rest.phone_prompts + round.prompts,
                    code_prompts: rest.code_prompts,
                }
            } else {
                DriveReport {
                    outcome: DriveOutcome::Stalled,
                    states_consumed: 1,
                    param_calls: 0,
                    phone_prompts: round.prompts,
                    code_prompts: 0,
                }
            }
        },
        AuthState::NeedsVerificationCode => {
            let code_len: usize = code.len();
            let round = prompt_until_accepted(code, c);
            proof {
                lemma_first_accept_props(code@, c as int);
                assert(code@.len() == code_len);
            }
            if round.accepted {
                let rest = drive_from(states, i + 1, phone, p, code, c + round.prompts, flag);
                proof {
                    lemma_drive_bounds(
                        states@, i + 1, phone@, p as int, code@, c + round.prompts,
                    );
                }
                DriveReport {
                    outcome: rest.outcome,
                    states_consumed: rest.states_consumed + 1,
                    param_calls: rest.param_calls,
                    phone_prompts: rest.phone_prompts,
                    code_prompts: rest.code_prompts + round.prompts,
                }
            } else {
                DriveReport {
                    outcome: DriveOutcome::Stalled,
                    states_consumed: 1,
                    param_calls: 0,
                    phone_prompts: 0,
                    code_prompts: round.prompts,
                }
            }
        },
        AuthState::Other => {
            let rest = drive_from(states, i + 1, phone, p, code, c, flag);
            proof {
                lemma_drive_bounds(states@, i + 1, phone@, p as int, code@, c as int);
            }
            DriveReport {
                outcome: rest.outcome,
                states_consumed: rest.states_consumed + 1,
                param_calls: rest.param_calls,
                phone_prompts: rest.phone_prompts,
                code_prompts: rest.code_prompts,
            }
        },
    }
}

/// Drives one authorization run: consumes the inbound states in order,
/// handles each as the transition table says, and stops at the first Ready
/// or Closed state, raising the shutdown flag on Closed and only then.
/// The operator's submissions are abstracted to their fates: `phone_accepts`
/// and `code_accepts` hold, in order, whether the library accepted each
/// submission the retry rounds make.
pub fn handle_authorization_state(
    states: &Vec<AuthState>,
    phone_accepts: &Vec<bool>,
    code_accepts: &Vec<bool>,
    flag: &mut ShutdownFlag,
) -> (r: DriveReport)
    ensures
        ({
            let m = spec_drive(states@, 0, phone_accepts@, 0, code_accepts@, 0);
            &&& r.outcome == m.outcome
            &&& r.states_consumed == m.states_consumed
            &&& r.param_calls == m.param_calls
            &&& r.phone_prompts == m.phone_prompts
            &&& r.code_prompts == m.code_prompts
            &&& final(flag)@ == (old(flag)@ || m.shutdown)
        }),
{
    drive_from(states, 0, phone_accepts, 0, code_accepts, 0, flag)
}

/// Number of NeedsParameters notifications among `states[i..end]`.
pub open spec fn count_needs_parameters(states: Seq<AuthState>, i: int, end: int) -> int
    decreases end - i,
{
    if i < 0 || i >= end || end > states.len() {
        0
    } else {
        (if states[i] is NeedsParameters { 1int } else { 0int })
            + count_needs_parameters(states, i + 1, end)
    }
}

proof fn lemma_param_calls_from(
    states: Seq<AuthState>,
    i: int,
    phone: Seq<bool>,
    p: int,
    code: Seq<bool>,
    c: int,
)
    requires
        0 <= i <= states.len(),
        0 <= p <= phone.len(),
        0 <= c <= code.len(),
    ensures
        ({
            let m = spec_drive(states, i, phone, p, code, c);
            m.param_calls == count_needs_parameters(states, i, i + m.states_consumed)
        }),
    decreases states.len() - i,
{
    lemma_drive_bounds(states, i, phone, p, code, c);
    if i < states.len() {
        match states[i] {
            AuthState::Ready => {
                assert(count_needs_parameters(states, i + 1, i + 1) == 0);
            },
            AuthState::Closed => {
                assert(count_needs_parameters(states, i + 1, i + 1) == 0);
            },
            AuthState::NeedsParameters => {
                lemma_drive_bounds(states, i + 1, phone, p, code, c);
                lemma_param_calls_from(states, i + 1, phone, p, code, c);
            },
            AuthState::NeedsPhoneNumber => {
                lemma_first_accept_props(phone, p);
                match first_accept(phone, p) {
                    Some(j) => {
                        lemma_drive_bounds(states, i + 1, phone, j + 1, code, c);
                        lemma_param_calls_from(states, i + 1, phone, j + 1, code, c);
                    },
                    None => {
                        assert(count_needs_parameters(states, i + 1, i + 1) == 0);
                    },
                }
            },
            AuthState::NeedsVerificationCode => {
                lemma_first_accept_props(code, c);
                match first_accept(code, c) {
                    Some(j) => {
                        lemma_drive_bounds(states, i + 1, phone, p, code, j + 1);
                        lemma_param_calls_from(states, i + 1, phone, p, code, j + 1);
                    },
                    None => {
                        assert(count_needs_parameters(states, i + 1, i + 1) == 0);
                    },
                }
            },
            AuthState::Other => {
                lemma_drive_bounds(states, i + 1, phone, p, code, c);
                lemma_param_calls_from(states, i + 1, phone, p, code, c);
            },
        }
    }
}

/// One session-parameter request per occurrence: over any run of the
/// driver, exactly as many parameter requests are issued as there are
/// NeedsParameters notifications among the states the run consumed — one
/// on the first such notification and one more only when it recurs.
pub proof fn lemma_one_param_call_per_occurrence(
    states: Seq<AuthState>,
    phone: Seq<bool>,
    code: Seq<bool>,
)
    ensures
        ({
            let m = spec_drive(states, 0, phone, 0, code, 0);
            m.param_calls == count_needs_parameters(states, 0, m.states_consumed)
        }),
{
    lemma_param_calls_from(states, 0, phone, 0, code, 0);
}

proof fn lemma_shutdown_from(
    states: Seq<AuthState>,
    i: int,
    phone: Seq<bool>,
    p: int,
    code: Seq<bool>,
    c: int,
)
    requires
        0 <= i,
        0 <= p,
        0 <= c,
    ensures
        ({
            let m = spec_drive(states, i, phone, p, code, c);
            m.shutdown <==> m.outcome is ReachedClosed
        }),
    decreases states.len() - i,
{
    if i < states.len() {
        match states[i] {
            AuthState::NeedsParameters | AuthState::Other => {
                lemma_shutdown_from(states, i + 1, phone, p, code, c);
            },
            AuthState::NeedsPhoneNumber => {
                lemma_first_accept_props(phone, p);
                match first_accept(phone, p) {
                    Some(j) => { lemma_shutdown_from(states, i + 1, phone, j + 1, code, c); },
                    None => {},
                }
            },
            AuthState::NeedsVerificationCode => {
                lemma_first_accept_props(code, c);
                match first_accept(code, c) {
                    Some(j) => { lemma_shutdown_from(states, i + 1, phone, p, code, j + 1); },
                    None => {},
                }
            },
            AuthState::Ready | AuthState::Closed => {},
        }
    }
}

/// The driver asks for shutdown exactly when its run ends in the Closed
/// state: a run that ends in Ready, drains the channel or stalls leaves
/// the flag as it was.
pub proof fn lemma_shutdown_iff_closed(
    states: Seq<AuthState>,
    phone: Seq<bool>,
    code: Seq<bool>,
)
    ensures
        ({
            let m = spec_drive(states, 0, phone, 0, code, 0);
            m.shutdown <==> m.outcome is ReachedClosed
        }),
{
    lemma_shutdown_from(states, 0, phone, 0, code, 0);
}

} // verus!
