//! What holds of a provider over several requests in a row.
//!
//! A request is followed to its end here: the provider says what it needs,
//! the service is called where it needs a tunnel, and the provider takes the
//! outcome in. The calls made and the descriptors handed back are counted.

use vstd::prelude::*;
use crate::config::TunConfigView;
use crate::error::{ErrorView, Method};
use crate::provider::{
    after_close,
    after_open,
    create_tun_if_closed_request,
    get_tun_request,
    replaced_by_open,
    ProviderState,
    TunRequestView,
};
use crate::service::{bypass_result, create_tun_result, CallOutcomeView, JavaValue};

verus! {

/// A request followed to its end.
pub struct Served {
    /// The provider's state afterwards.
    pub state: ProviderState,
    /// The descriptor of the tunnel that the request ended with, or the error.
    pub result: Result<i32, ErrorView>,
    /// The configurations that `createTun` was called with, in order.
    pub calls: Seq<TunConfigView>,
    /// The descriptors that were handed back to be closed, in order.
    pub released: Seq<i32>,
}

/// The descriptor, as the list of what is handed back.
pub open spec fn handed_back(fd: Option<i32>) -> Seq<i32> {
    match fd {
        Some(fd) => seq![fd],
        None => Seq::empty(),
    }
}

/// The service is asked for a tunnel with `config`, and answers `outcome`.
pub open spec fn serve_open(
    state: ProviderState,
    config: TunConfigView,
    outcome: CallOutcomeView,
) -> Served {
    Served {
        state: after_open(state, config, outcome),
        result: create_tun_result(outcome),
        calls: seq![config],
        released: handed_back(replaced_by_open(state, outcome)),
    }
}

/// A tunnel with `config` is wanted; `outcome` is what the service answers
/// if it is asked.
pub open spec fn serve_get_tun(
    state: ProviderState,
    config: TunConfigView,
    outcome: CallOutcomeView,
) -> Served {
    match get_tun_request(state, config) {
        TunRequestView::Ready(fd) => Served {
            state,
            result: Ok(fd),
            calls: Seq::empty(),
            released: Seq::empty(),
        },
        TunRequestView::CreateTun(wanted) => serve_open(state, wanted, outcome),
    }
}

/// Any tunnel is wanted if none is open; `outcome` is what the service
/// answers if it is asked. Where a tunnel is open, the result is its
/// descriptor.
pub open spec fn serve_create_tun_if_closed(
    state: ProviderState,
    outcome: CallOutcomeView,
) -> Served {
    match create_tun_if_closed_request(state) {
        None => Served {
            state,
            result: Ok(state.active_tun->0),
            calls: Seq::empty(),
            released: Seq::empty(),
        },
        Some(wanted) => serve_open(state, wanted, outcome),
    }
}

/// After a tunnel with a configuration was retrieved, retrieving one with
/// the same configuration calls the service no more, gives the same
/// descriptor, hands nothing back and leaves the provider as it is. Unless
/// the first request was served by a tunnel that was open already, the two
/// together call the service once, with that configuration.
pub proof fn law_same_config_is_reused(
    state: ProviderState,
    config: TunConfigView,
    first: CallOutcomeView,
    second: CallOutcomeView,
)
    requires
        serve_get_tun(state, config, first).result is Ok,
    ensures
        ({
            let one = serve_get_tun(state, config, first);
            let two = serve_get_tun(one.state, config, second);
            &&& two.calls == Seq::<TunConfigView>::empty()
            &&& two.released == Seq::<i32>::empty()
            &&& two.result == one.result
            &&& two.state == one.state
            &&& one.state.active_tun == Some(one.result->Ok_0)
            &&& one.state.last_tun_config == config
            &&& !(get_tun_request(state, config) is Ready) ==> one.calls + two.calls
                == seq![config]
        }),
{
    let one = serve_get_tun(state, config, first);
    let two = serve_get_tun(one.state, config, second);
    assert(one.calls + two.calls =~= one.calls);
}

/// After a tunnel with one configuration was retrieved, retrieving one with
/// another configuration calls the service once, with the other
/// configuration: two calls in all, unless the first request was served by
/// a tunnel that was open already. Where the second call gives a descriptor, the first tunnel's
/// descriptor is handed back, once, and the new tunnel is the active one: it
/// is what a later close hands back.
pub proof fn law_changed_config_replaces(
    state: ProviderState,
    config: TunConfigView,
    other: TunConfigView,
    first: CallOutcomeView,
    second: CallOutcomeView,
)
    requires
        config != other,
        serve_get_tun(state, config, first).result is Ok,
    ensures
        ({
            let one = serve_get_tun(state, config, first);
            let two = serve_get_tun(one.state, other, second);
            &&& two.calls == seq![other]
            &&& !(get_tun_request(state, config) is Ready) ==> one.calls + two.calls
                == seq![config, other]
            &&& two.result == create_tun_result(second)
            &&& two.result is Ok ==> {
                &&& two.released == seq![one.result->Ok_0]
                &&& two.state == (ProviderState {
                    active_tun: Some(two.result->Ok_0),
                    last_tun_config: other,
                })
                &&& handed_back(two.state.active_tun) == seq![two.result->Ok_0]
            }
        }),
{
    let one = serve_get_tun(state, config, first);
    let two = serve_get_tun(one.state, other, second);
    if !(get_tun_request(state, config) is Ready) {
        assert(one.calls + two.calls =~= seq![config, other]);
    }
}

/// Where retrieving a tunnel with another configuration fails, the provider
/// is as it was before: nothing is handed back, the first tunnel stays
/// active, and retrieving a tunnel with the first configuration again gives
/// the first descriptor without a call of the service.
pub proof fn law_failure_keeps_tunnel(
    state: ProviderState,
    config: TunConfigView,
    other: TunConfigView,
    first: CallOutcomeView,
    second: CallOutcomeView,
    third: CallOutcomeView,
)
    requires
        serve_get_tun(state, config, first).result is Ok,
        serve_get_tun(serve_get_tun(state, config, first).state, other, second).result is Err,
    ensures
        ({
            let one = serve_get_tun(state, config, first);
            let two = serve_get_tun(one.state, other, second);
            let three = serve_get_tun(two.state, config, third);
            &&& two.state == one.state
            &&& two.released == Seq::<i32>::empty()
            &&& two.state.active_tun == Some(one.result->Ok_0)
            &&& two.state.last_tun_config == config
            &&& three.calls == Seq::<TunConfigView>::empty()
            &&& three.result == one.result
            &&& three.state == one.state
        }),
{
}

/// A failed call of the service never changes the provider and never has a
/// descriptor handed back, whatever the state and the configuration.
pub proof fn law_failed_open_changes_nothing(
    state: ProviderState,
    config: TunConfigView,
    outcome: CallOutcomeView,
)
    requires
        create_tun_result(outcome) is Err,
    ensures
        after_open(state, config, outcome) == state,
        replaced_by_open(state, outcome) is None,
{
}

/// No descriptor is lost and none is handed back twice: the descriptor that
/// was active and the one that the service gave are, together, the one that
/// is active afterwards and the one that is handed back. The one the service
/// gave comes first among them: it is there before the old one goes.
pub proof fn law_open_accounts_for_descriptors(
    state: ProviderState,
    config: TunConfigView,
    outcome: CallOutcomeView,
)
    ensures
        ({
            let served = serve_open(state, config, outcome);
            let given = match create_tun_result(outcome) {
                Ok(fd) => seq![fd],
                Err(_) => Seq::<i32>::empty(),
            };
            given + handed_back(state.active_tun) == handed_back(served.state.active_tun)
                + served.released
        }),
{
    let served = serve_open(state, config, outcome);
    let given = match create_tun_result(outcome) {
        Ok(fd) => seq![fd],
        Err(_) => Seq::<i32>::empty(),
    };
    assert(given + handed_back(state.active_tun) =~= handed_back(served.state.active_tun)
        + served.released);
}

/// Asked to create a tunnel if none is open, the provider calls the service
/// not at all where a tunnel is open, and leaves it as it is; where none is
/// open it calls the service once, with the last configuration.
pub proof fn law_create_if_closed_is_idempotent(state: ProviderState, outcome: CallOutcomeView)
    ensures
        ({
            let served = serve_create_tun_if_closed(state, outcome);
            &&& state.active_tun is Some ==> {
                &&& served.calls == Seq::<TunConfigView>::empty()
                &&& served.released == Seq::<i32>::empty()
                &&& served.state == state
                &&& served.result is Ok
            }
            &&& state.active_tun is None ==> {
                &&& served.calls == seq![state.last_tun_config]
                &&& served.released == Seq::<i32>::empty()
                &&& served.result == create_tun_result(outcome)
                &&& served.result is Ok ==> serve_create_tun_if_closed(
                    served.state,
                    outcome,
                ).calls == Seq::<TunConfigView>::empty()
            }
        }),
{
}

/// Closing leaves no tunnel active, whatever the state, and hands back
/// exactly the descriptor that was active. On a closed provider it changes
/// nothing and hands nothing back, and closing twice is closing once.
pub proof fn law_close(state: ProviderState)
    ensures
        after_close(state).active_tun is None,
        after_close(state).last_tun_config == state.last_tun_config,
        state.active_tun is None ==> after_close(state) == state && handed_back(state.active_tun)
            == Seq::<i32>::empty(),
        after_close(after_close(state)) == after_close(state),
        get_tun_request(after_close(state), state.last_tun_config) is CreateTun,
{
}

/// What the answer to a bypass request means: success where the service
/// returned `true`, a refusal where it returned `false`, an invalid result
/// with the value's text where it returned anything but a `boolean`.
pub proof fn law_bypass_outcomes(value: JavaValue, text: Seq<char>)
    ensures
        ({
            let result = bypass_result(CallOutcomeView::Returned(value, text));
            match value {
                JavaValue::Bool(flag) => if flag == 0 {
                    result == Err::<(), ErrorView>(ErrorView::Bypass)
                } else {
                    result == Ok::<(), ErrorView>(())
                },
                _ => result == Err::<(), ErrorView>(
                    ErrorView::InvalidMethodResult(Method::Bypass, text),
                ),
            }
        }),
{
}

} // verus!
