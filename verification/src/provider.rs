//! The provider of tunnel devices: which tunnel is active, and when the
//! service has to be asked for another.
//!
//! The provider reaches the service through the function that its caller
//! hands in, which calls `createTun` and says how the call ended. Each
//! request also comes in two steps, for a caller that makes the call itself:
//! [`AndroidTunProvider::request_tun`] says whether the service has to be
//! asked, and [`AndroidTunProvider::open_tun`] takes the outcome in. Where a
//! descriptor falls out of use the provider hands it back, and its owner
//! closes it.
//!
//! The provider does not probe whether the active descriptor is still alive.
//! It takes it that a descriptor is closed only after it was handed back.

use vstd::prelude::*;
use crate::config::{initial_config, TunConfig, TunConfigView};
use crate::error::Error;
use crate::service::{create_tun_result, CallOutcome, CallOutcomeView};
use crate::tun::VpnServiceTun;

verus! {

/// What a provider knows: the descriptor of the active tunnel, if one is
/// open, and the configuration last used with success (at first, the initial
/// one).
pub struct ProviderState {
    pub active_tun: Option<i32>,
    pub last_tun_config: TunConfigView,
}

/// What has to happen before a tunnel with a wanted configuration is there.
#[derive(Debug)]
pub enum TunRequest {
    /// Nothing: the active tunnel has that configuration. Here is a handle.
    Ready(VpnServiceTun),
    /// The service has to create a tunnel with this configuration.
    CreateTun(TunConfig),
}

/// A request, over the descriptor and the view of the configuration.
pub enum TunRequestView {
    Ready(i32),
    CreateTun(TunConfigView),
}

impl View for TunRequest {
    type V = TunRequestView;

    open spec fn view(&self) -> TunRequestView {
        match self {
            TunRequest::Ready(tun) => TunRequestView::Ready(tun@),
            TunRequest::CreateTun(config) => TunRequestView::CreateTun(config@),
        }
    }
}

/// The tunnel that is active after a request.
#[derive(Debug)]
pub struct ActiveTun {
    /// A handle to the tunnel.
    pub tun: VpnServiceTun,
    /// The descriptor of the tunnel that this one took the place of, which
    /// is now to be closed.
    pub replaced: Option<i32>,
}

/// Whether `result` is what a provider in `state` answers when a call of
/// `createTun` ended in `outcome`: the new tunnel and the descriptor that
/// was active before, or the error of the step that failed.
pub open spec fn answers_open(
    state: ProviderState,
    outcome: CallOutcomeView,
    result: Result<ActiveTun, Error>,
) -> bool {
    match create_tun_result(outcome) {
        Ok(fd) => result matches Ok(active) && active.tun@ == fd && active.replaced
            == state.active_tun,
        Err(error) => result matches Err(e) && e@ == error,
    }
}

/// The state of a new provider: closed, with the initial configuration.
pub open spec fn initial_state() -> ProviderState {
    ProviderState { active_tun: None, last_tun_config: initial_config() }
}

/// What a provider in `state` asks for when a tunnel with `config` is wanted:
/// nothing where a tunnel is open that was created with `config`, else a new
/// tunnel.
pub open spec fn get_tun_request(state: ProviderState, config: TunConfigView) -> TunRequestView {
    match state.active_tun {
        Some(fd) if state.last_tun_config == config => TunRequestView::Ready(fd),
        _ => TunRequestView::CreateTun(config),
    }
}

/// What a provider in `state` asks the service to create a tunnel with, when
/// any tunnel will do: nothing where one is open.
pub open spec fn create_tun_if_closed_request(state: ProviderState) -> Option<TunConfigView> {
    match state.active_tun {
        Some(_) => None,
        None => Some(state.last_tun_config),
    }
}

/// The state after the service was asked to create a tunnel with `config`
/// and the call ended in `outcome`: where it gave a descriptor, that tunnel
/// is active and `config` is the last configuration; else nothing changed.
pub open spec fn after_open(
    state: ProviderState,
    config: TunConfigView,
    outcome: CallOutcomeView,
) -> ProviderState {
    match create_tun_result(outcome) {
        Ok(fd) => ProviderState { active_tun: Some(fd), last_tun_config: config },
        Err(_) => state,
    }
}

/// The descriptor that falls out of use by that call: the one that was
/// active, where the call gave a new one.
pub open spec fn replaced_by_open(state: ProviderState, outcome: CallOutcomeView) -> Option<i32> {
    match create_tun_result(outcome) {
        Ok(_) => state.active_tun,
        Err(_) => None,
    }
}

/// The state after the tunnel was closed: no tunnel is active, and the last
/// configuration stays.
pub open spec fn after_close(state: ProviderState) -> ProviderState {
    ProviderState { active_tun: None, last_tun_config: state.last_tun_config }
}

/// Factory of tunnel devices on Android.
pub struct AndroidTunProvider {
    active_tun: Option<i32>,
    last_tun_config: TunConfig,
}

impl View for AndroidTunProvider {
    type V = ProviderState;

    closed spec fn view(&self) -> ProviderState {
        ProviderState { active_tun: self.active_tun, last_tun_config: self.last_tun_config@ }
    }
}

impl AndroidTunProvider {
    /// Create a new provider. No tunnel is open, and the configuration it
    /// starts with intercepts all packets.
    pub fn new() -> (provider: AndroidTunProvider)
        ensures
            provider@ == initial_state(),
    {
        AndroidTunProvider { active_tun: None, last_tun_config: TunConfig::initial() }
    }

    /// The descriptor of the active tunnel, if one is open.
    pub fn active_tun(&self) -> (fd: Option<i32>)
        ensures
            fd == self@.active_tun,
    {
        self.active_tun
    }

    /// The configuration that the active tunnel was created with or, where
    /// none is open, that the next one is created with if no other is named.
    pub fn last_tun_config(&self) -> (config: &TunConfig)
        ensures
            config@ == self@.last_tun_config,
    {
        &self.last_tun_config
    }

    /// Whether the service has to be asked before a tunnel with `config` can
    /// be handed out: gives a handle to the active tunnel where it was created
    /// with `config`, else the configuration to create one with.
    pub fn request_tun(&self, config: TunConfig) -> (request: TunRequest)
        ensures
            request@ == get_tun_request(self@, config@),
    {
        match self.active_tun {
            Some(fd) if self.last_tun_config.same_as(&config) => TunRequest::Ready(
                VpnServiceTun::over(fd),
            ),
            _ => TunRequest::CreateTun(config),
        }
    }

    /// Takes in how the call of `createTun` with `config` ended. Where the
    /// service gave a descriptor, that tunnel is now the active one and the
    /// one before it is handed back to be closed. Where it did not, the
    /// provider is as it was and the error says which step failed.
    pub fn open_tun(&mut self, config: TunConfig, outcome: CallOutcome) -> (result: Result<
        ActiveTun,
        Error,
    >)
        ensures
            final(self)@ == after_open(old(self)@, config@, outcome@),
            answers_open(old(self)@, outcome@, result),
            result matches Ok(active) ==> active.replaced == replaced_by_open(
                old(self)@,
                outcome@,
            ),
    {
        match outcome.into_tun_fd() {
            Ok(fd) => {
                let replaced = self.active_tun;
                self.active_tun = Some(fd);
                self.last_tun_config = config;
                Ok(ActiveTun { tun: VpnServiceTun::over(fd), replaced })
            },
            Err(error) => Err(error),
        }
    }

    /// Retrieve a tunnel device with the provided configuration. Where the
    /// active tunnel was created with `config`, the service is not called and
    /// nothing changes. Else `create_tun` is called once, with `config`, and
    /// its outcome decides as in [`Self::open_tun`].
    pub fn get_tun<F: FnOnce(TunConfig) -> CallOutcome>(
        &mut self,
        config: TunConfig,
        create_tun: F,
    ) -> (result: Result<ActiveTun, Error>)
        requires
            forall|sent: TunConfig| sent@ == config@ ==> create_tun.requires((sent,)),
        ensures
            match get_tun_request(old(self)@, config@) {
                TunRequestView::Ready(fd) => {
                    &&& final(self)@ == old(self)@
                    &&& result matches Ok(active) && active.tun@ == fd && active.replaced is None
                },
                TunRequestView::CreateTun(wanted) => exists|sent: TunConfig, outcome: CallOutcome|
                    {
                        &&& sent@ == wanted
                        &&& #[trigger] create_tun.ensures((sent,), outcome)
                        &&& final(self)@ == after_open(old(self)@, wanted, outcome@)
                        &&& answers_open(old(self)@, outcome@, result)
                    },
            },
    {
        match self.request_tun(config) {
            TunRequest::Ready(tun) => Ok(ActiveTun { tun, replaced: None }),
            TunRequest::CreateTun(wanted) => {
                let sent = wanted.clone();
                let outcome = create_tun(sent);
                self.open_tun(wanted, outcome)
            },
        }
    }

    /// Open a tunnel device using the previous or the default configuration.
    ///
    /// Calls `create_tun` once with that configuration, also where a tunnel
    /// is active: the previous tunnel is then handed back to be closed.
    pub fn create_tun<F: FnOnce(TunConfig) -> CallOutcome>(&mut self, create_tun: F) -> (result:
        Result<ActiveTun, Error>)
        requires
            forall|sent: TunConfig|
                sent@ == old(self)@.last_tun_config ==> create_tun.requires((sent,)),
        ensures
            exists|sent: TunConfig, outcome: CallOutcome|
                {
                    &&& sent@ == old(self)@.last_tun_config
                    &&& #[trigger] create_tun.ensures((sent,), outcome)
                    &&& final(self)@ == after_open(old(self)@, sent@, outcome@)
                    &&& answers_open(old(self)@, outcome@, result)
                },
    {
        let wanted = self.last_tun_config.clone();
        let sent = wanted.clone();
        let outcome = create_tun(sent);
        self.open_tun(wanted, outcome)
    }

    /// Open a tunnel device using the previous or the default configuration
    /// if there is no currently active tunnel. Where one is active the
    /// service is not called and nothing changes.
    pub fn create_tun_if_closed<F: FnOnce(TunConfig) -> CallOutcome>(
        &mut self,
        create_tun: F,
    ) -> (result: Result<(), Error>)
        requires
            forall|sent: TunConfig|
                sent@ == old(self)@.last_tun_config ==> create_tun.requires((sent,)),
        ensures
            match create_tun_if_closed_request(old(self)@) {
                None => final(self)@ == old(self)@ && result is Ok,
                Some(wanted) => exists|sent: TunConfig, outcome: CallOutcome|
                    {
                        &&& sent@ == wanted
                        &&& #[trigger] create_tun.ensures((sent,), outcome)
                        &&& final(self)@ == after_open(old(self)@, wanted, outcome@)
                        &&& match create_tun_result(outcome@) {
                            Ok(_) => result is Ok,
                            Err(error) => result matches Err(e) && e@ == error,
                        }
                    },
            },
    {
        if self.active_tun.is_none() {
            match self.create_tun(create_tun) {
                Ok(_) => Ok(()),
                Err(error) => Err(error),
            }
        } else {
            Ok(())
        }
    }

    /// Close currently active tunnel device: hands back its descriptor to be
    /// closed, or nothing where no tunnel was open.
    pub fn close_tun(&mut self) -> (released: Option<i32>)
        ensures
            released == old(self)@.active_tun,
            final(self)@ == after_close(old(self)@),
    {
        let released = self.active_tun;
        self.active_tun = None;
        released
    }
}

} // verus!
