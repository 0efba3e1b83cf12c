//! The update dispatcher: classifies each update pulled from the external
//! library and routes it to the authorization driver or the render loop.

use vstd::prelude::*;
use crate::auth::AuthState;
use crate::render::RenderUpdate;

verus! {

/// What the dispatcher reads of one update from the external library:
/// an authorization-state notification, a new message, or anything else.
#[derive(Clone, Copy, PartialEq, Eq, Structural, Debug)]
pub enum UpdateKind {
    AuthState(AuthState),
    NewMessage,
    Other,
}

/// Where one update goes.
#[derive(Clone, Copy, PartialEq, Eq, Structural, Debug)]
pub enum Route {
    /// Forward the embedded state to the authorization driver's channel.
    ToAuthDriver(AuthState),
    /// Forward a render command to the render loop's inbox.
    ToRenderLoop(RenderUpdate),
    /// Silently drop the update: an explicit no-op, not an error.
    Discard,
}

/// The dispatcher's classification rule.
pub open spec fn spec_route(update: UpdateKind) -> Route {
    match update {
        UpdateKind::AuthState(state) => Route::ToAuthDriver(state),
        UpdateKind::NewMessage => Route::ToRenderLoop(RenderUpdate::NewMessage),
        UpdateKind::Other => Route::Discard,
    }
}

/// Classifies one update into the channel it must be sent on.
pub fn handle_update(update: UpdateKind) -> (route: Route)
    ensures
        route == spec_route(update),
{
    match update {
        UpdateKind::AuthState(state) => Route::ToAuthDriver(state),
        UpdateKind::NewMessage => Route::ToRenderLoop(RenderUpdate::NewMessage),
        UpdateKind::Other => Route::Discard,
    }
}

/// One poll by the dispatcher: the shutdown flag as it was observed at the
/// top of the iteration, and what the pull from the external library
/// produced — `None` when no update was pending, which is not an error.
#[derive(Clone, Copy, PartialEq, Eq, Structural, Debug)]
pub struct DispatchPoll {
    pub shutdown: bool,
    pub update: Option<UpdateKind>,
}

/// What one run of the dispatcher forwarded, at the model level: the
/// authorization states and render commands in arrival order, how many
/// polls were made, and how many updates were discarded.
pub struct DispatchModel {
    pub polls_consumed: int,
    pub auth_out: Seq<AuthState>,
    pub render_out: Seq<RenderUpdate>,
    pub discarded: int,
}

/// What one run of the dispatcher forwarded.
pub struct DispatchReport {
    pub polls_consumed: usize,
    pub auth_out: Vec<AuthState>,
    pub render_out: Vec<RenderUpdate>,
    pub discarded: usize,
}

/// The dispatcher's polling loop over the polls from `i` on: it stops at
/// the first poll that sees the shutdown flag, without draining what is
/// left, and otherwise routes each update as the classification rule says,
/// keeping arrival order on each channel.
pub open spec fn spec_dispatch(polls: Seq<DispatchPoll>, i: int) -> DispatchModel
    decreases polls.len() - i,
{
    if i < 0 || i >= polls.len() || polls[i].shutdown {
        DispatchModel {
            polls_consumed: 0,
            auth_out: Seq::empty(),
            render_out: Seq::empty(),
            discarded: 0,
        }
    } else {
        let rest = spec_dispatch(polls, i + 1);
        match polls[i].update {
            Some(UpdateKind::AuthState(state)) => DispatchModel {
                polls_consumed: rest.polls_consumed + 1,
                auth_out: seq![state] + rest.auth_out,
                render_out: rest.render_out,
                discarded: rest.discarded,
            },
            Some(UpdateKind::NewMessage) => DispatchModel {
                polls_consumed: rest.polls_consumed + 1,
                auth_out: rest.auth_out,
                render_out: seq![RenderUpdate::NewMessage] + rest.render_out,
                discarded: rest.discarded,
            },
            Some(UpdateKind::Other) => DispatchModel {
                polls_consumed: rest.polls_consumed + 1,
                auth_out: rest.auth_out,
                render_out: rest.render_out,
                discarded: rest.discarded + 1,
            },
            None => DispatchModel {
                polls_consumed: rest.polls_consumed + 1,
                auth_out: rest.auth_out,
                render_out: rest.render_out,
                discarded: rest.discarded,
            },
        }
    }
}

/// Runs the dispatcher's polling loop against the given polls: while the
/// shutdown flag stays unset, every pulled update is classified and
/// forwarded in arrival order; the first poll that sees the flag ends the
/// loop at once.
#[verifier::loop_isolation(false)]
pub fn run_dispatcher(polls: &Vec<DispatchPoll>) -> (r: DispatchReport)
    ensures
        ({
            let m = spec_dispatch(polls@, 0);
            &&& r.polls_consumed == m.polls_consumed
            &&& r.auth_out@ == m.auth_out
            &&& r.render_out@ == m.render_out
            &&& r.discarded == m.discarded
        }),
{
    let ghost total = spec_dispatch(polls@, 0);
    let mut auth_out: Vec<AuthState> = Vec::new();
    let mut render_out: Vec<RenderUpdate> = Vec::new();
    let mut discarded: usize = 0;
    let mut i: usize = 0;
    loop
        invariant
            i <= polls@.len(),
            discarded <= i,
            ({
                let rest = spec_dispatch(polls@, i as int);
                &&& total.polls_consumed == i + rest.polls_consumed
                &&& total.auth_out == auth_out@ + rest.auth_out
                &&& total.render_out == render_out@ + rest.render_out
                &&& total.discarded == discarded + rest.discarded
            }),
        decreases polls@.len() - i,
    {
        let stop = i == polls.len() || polls[i].shutdown;
        if stop {
            proof {
                let rest = spec_dispatch(polls@, i as int);
                assert(auth_out@ + rest.auth_out =~= auth_out@);
                assert(render_out@ + rest.render_out =~= render_out@);
            }
            return DispatchReport { polls_consumed: i, auth_out, render_out, discarded };
        }
        if let Some(update) = polls[i].update {
            match handle_update(update) {
                Route::ToAuthDriver(state) => {
                    auth_out.push(state);
                    proof {
                        assert(total.auth_out
                            =~= auth_out@ + spec_dispatch(polls@, i + 1).auth_out);
                    }
                },
                Route::ToRenderLoop(command) => {
                    render_out.push(command);
                    proof {
                        assert(total.render_out
                            =~= render_out@ + spec_dispatch(polls@, i + 1).render_out);
                    }
                },
                Route::Discard => {
                    discarded = discarded + 1;
                },
            }
        }
        i = i + 1;
    }
}

} // verus!
