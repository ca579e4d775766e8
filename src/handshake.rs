use vstd::prelude::*;

use crate::config::Config;

verus! {

/// Where the handshake with the button service stands.
#[derive(Clone, Copy, Debug, PartialEq, Eq, Structural)]
pub enum HandshakeState {
    Idle,
    InfoRequested,
    ChannelCreating,
    Subscribed,
}

/// Delivery latency asked for a connection channel.
#[derive(Clone, Copy, Debug, PartialEq, Eq, Structural)]
pub enum LatencyMode {
    Normal,
    Low,
    High,
}

/// A command submitted to the button service.
#[derive(Debug)]
pub enum Command {
    GetInfo,
    CreateConnectionChannel {
        channel_id: u32,
        device: String,
        latency: LatencyMode,
        auto_disconnect_time: i16,
    },
}

/// What the handshake task does next.
#[derive(Debug)]
pub enum HandshakeStep {
    /// Submit a command to the session.
    Submit(Command),
    /// Sleep this many milliseconds without blocking other tasks.
    Wait(u64),
    /// Nothing more to do: stay parked until shutdown.
    Park,
}

/// A handshake step as a mathematical value.
pub enum StepView {
    GetInfo,
    CreateChannel { channel_id: u32, device: Seq<char>, latency: LatencyMode, auto_disconnect_time: i16 },
    Wait(u64),
    Park,
}

impl View for HandshakeStep {
    type V = StepView;

    open spec fn view(&self) -> StepView {
        match self {
            HandshakeStep::Submit(Command::GetInfo) => StepView::GetInfo,
            HandshakeStep::Submit(
                Command::CreateConnectionChannel { channel_id, device, latency, auto_disconnect_time },
            ) => StepView::CreateChannel {
                channel_id: *channel_id,
                device: device@,
                latency: *latency,
                auto_disconnect_time: *auto_disconnect_time,
            },
            HandshakeStep::Wait(ms) => StepView::Wait(*ms),
            HandshakeStep::Park => StepView::Park,
        }
    }
}

/// The fixed order of the handshake; the last state is kept for good.
pub open spec fn next_state(s: HandshakeState) -> HandshakeState {
    match s {
        HandshakeState::Idle => HandshakeState::InfoRequested,
        HandshakeState::InfoRequested => HandshakeState::ChannelCreating,
        HandshakeState::ChannelCreating => HandshakeState::Subscribed,
        HandshakeState::Subscribed => HandshakeState::Subscribed,
    }
}

/// The step taken in state `s` for the button `device`.
pub open spec fn step_in(s: HandshakeState, config: Config, device: Seq<char>) -> StepView {
    match s {
        HandshakeState::Idle => StepView::GetInfo,
        HandshakeState::InfoRequested => StepView::Wait(config.settle_delay_ms),
        HandshakeState::ChannelCreating => StepView::CreateChannel {
            channel_id: config.channel_id,
            device,
            latency: LatencyMode::Normal,
            auto_disconnect_time: config.auto_disconnect_time,
        },
        HandshakeState::Subscribed => StepView::Park,
    }
}

/// The state after `n` steps from the start.
pub open spec fn state_after(n: nat) -> HandshakeState
    decreases n,
{
    if n == 0 {
        HandshakeState::Idle
    } else {
        next_state(state_after((n - 1) as nat))
    }
}

/// The `n`-th step of a handshake run from the start.
pub open spec fn nth_step(config: Config, device: Seq<char>, n: nat) -> StepView {
    step_in(state_after(n), config, device)
}

/// Issues the handshake that subscribes one button, one step at a time.
pub struct Sequencer {
    config: Config,
    device: String,
    state: HandshakeState,
}

impl Sequencer {
    #[verifier::type_invariant]
    spec fn inv(self) -> bool {
        self.config.wf()
    }

    pub closed spec fn spec_state(self) -> HandshakeState {
        self.state
    }

    pub closed spec fn spec_config(self) -> Config {
        self.config
    }

    pub closed spec fn spec_device(self) -> Seq<char> {
        self.device@
    }

    /// A sequencer at the start of the handshake for the button `device`.
    pub fn new(config: Config, device: String) -> (r: Sequencer)
        requires
            config.wf(),
        ensures
            r.spec_state() == HandshakeState::Idle,
            r.spec_config() == config,
            r.spec_device() == device@,
    {
        Sequencer { config, device, state: HandshakeState::Idle }
    }

    pub fn state(&self) -> (r: HandshakeState)
        ensures
            r == self.spec_state(),
    {
        self.state
    }

    /// The step to take now; the sequencer moves on to the next state.
    pub fn next_step(&mut self) -> (r: HandshakeStep)
        ensures
            r@ == step_in(old(self).spec_state(), old(self).spec_config(), old(self).spec_device()),
            r@ matches StepView::Wait(ms) ==> ms > 0,
            final(self).spec_state() == next_state(old(self).spec_state()),
            final(self).spec_config() == old(self).spec_config(),
            final(self).spec_device() == old(self).spec_device(),
    {
        proof {
            use_type_invariant(&*self);
        }
        let step = match self.state {
            HandshakeState::Idle => HandshakeStep::Submit(Command::GetInfo),
            HandshakeState::InfoRequested => HandshakeStep::Wait(self.config.settle_delay_ms),
            HandshakeState::ChannelCreating => HandshakeStep::Submit(
                Command::CreateConnectionChannel {
                    channel_id: self.config.channel_id,
                    device: self.device.clone(),
                    latency: LatencyMode::Normal,
                    auto_disconnect_time: self.config.auto_disconnect_time,
                },
            ),
            HandshakeState::Subscribed => HandshakeStep::Park,
        };
        self.state =
        match self.state {
            HandshakeState::Idle => HandshakeState::InfoRequested,
            HandshakeState::InfoRequested => HandshakeState::ChannelCreating,
            HandshakeState::ChannelCreating => HandshakeState::Subscribed,
            HandshakeState::Subscribed => HandshakeState::Subscribed,
        };
        step
    }
}

/// A handshake run from the start requests the info first, then waits a
/// non-zero time, then creates the one channel for the configured button
/// with normal latency, and then stays parked: the info request comes
/// strictly before the channel creation, each exactly once.
pub proof fn lemma_handshake_order(config: Config, device: Seq<char>)
    requires
        config.wf(),
    ensures
        nth_step(config, device, 0) == StepView::GetInfo,
        nth_step(config, device, 1) == StepView::Wait(config.settle_delay_ms),
        config.settle_delay_ms > 0,
        nth_step(config, device, 2) == (StepView::CreateChannel {
            channel_id: config.channel_id,
            device,
            latency: LatencyMode::Normal,
            auto_disconnect_time: config.auto_disconnect_time,
        }),
        forall|n: nat| n >= 3 ==> #[trigger] nth_step(config, device, n) == StepView::Park,
        forall|i: nat, j: nat|
            #![trigger nth_step(config, device, i), nth_step(config, device, j)]
            nth_step(config, device, i) == StepView::GetInfo && nth_step(config, device, j)
                is CreateChannel ==> i + 1 < j,
{
    assert(state_after(1) == HandshakeState::InfoRequested);
    assert(state_after(2) == HandshakeState::ChannelCreating);
    assert(state_after(3) == HandshakeState::Subscribed);
    assert forall|n: nat| n >= 3 implies #[trigger] state_after(n) == HandshakeState::Subscribed by {
        lemma_parked_after(n);
    }
}

proof fn lemma_parked_after(n: nat)
    requires
        n >= 3,
    ensures
        state_after(n) == HandshakeState::Subscribed,
    decreases n,
{
    if n > 3 {
        lemma_parked_after((n - 1) as nat);
    } else {
        reveal_with_fuel(state_after, 4);
    }
}

} // verus!
