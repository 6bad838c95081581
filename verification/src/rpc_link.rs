//! The connection to the local Discord client, as a state machine: the app
//! performs each step's outside work and reports back how it went.
use vstd::prelude::*;

verus! {

/// Discord application id under which the presence is shown.
pub const DISCORD_CLIENT_ID: &'static str = "1213360640580653166";

/// What the link knows: whether a client exists, and whether it is connected.
pub struct LinkView {
    pub has_client: bool,
    pub connected: bool,
}

/// The next thing to do to get a connected client.
pub enum InitStep {
    /// Create the client.
    CreateClient,
    /// Connect the existing client.
    Connect,
    /// The client is connected.
    Ready,
}

/// The step that getting ready takes from a given state.
pub open spec fn spec_init_step(v: LinkView) -> InitStep {
    if !v.has_client {
        InitStep::CreateClient
    } else if !v.connected {
        InitStep::Connect
    } else {
        InitStep::Ready
    }
}

/// The state after the client was created.
pub open spec fn spec_after_create(v: LinkView) -> LinkView {
    LinkView { has_client: true, connected: v.connected }
}

/// The state after connecting ended, successfully or not.
pub open spec fn spec_after_connect(v: LinkView, ok: bool) -> LinkView {
    if ok && v.has_client {
        LinkView { has_client: true, connected: true }
    } else {
        v
    }
}

/// The state after closing ended, successfully or not.
pub open spec fn spec_after_close(v: LinkView, ok: bool) -> LinkView {
    if ok {
        LinkView { has_client: v.has_client, connected: false }
    } else {
        v
    }
}

/// Whether clearing or closing talks to Discord: only over a connection.
pub open spec fn spec_is_live(v: LinkView) -> bool {
    v.connected && v.has_client
}

/// The link's invariant: only a client that exists is connected.
pub open spec fn link_wf(v: LinkView) -> bool {
    v.connected ==> v.has_client
}

/// What follows an attempt to show an activity.
#[derive(PartialEq, Eq, Structural, Clone, Copy, Debug)]
pub enum AfterActivity {
    /// It was shown; nothing more to do.
    Done,
    /// It failed: reconnect the client (once) and carry on.
    Reconnect,
}

/// The state of the link to the Discord client.
pub struct RpcLink {
    has_client: bool,
    connected: bool,
}

impl View for RpcLink {
    type V = LinkView;

    closed spec fn view(&self) -> LinkView {
        LinkView { has_client: self.has_client, connected: self.connected }
    }
}

impl RpcLink {
    #[verifier::type_invariant]
    spec fn connected_has_client(self) -> bool {
        self.connected ==> self.has_client
    }

    /// No client, no connection.
    pub fn new() -> (link: RpcLink)
        ensures
            link@ == (LinkView { has_client: false, connected: false }),
    {
        RpcLink { has_client: false, connected: false }
    }

    /// Whether a client exists.
    pub fn has_client(&self) -> (b: bool)
        ensures
            b == self@.has_client,
    {
        self.has_client
    }

    /// Whether the client is connected.
    pub fn is_connected(&self) -> (b: bool)
        ensures
            b == self@.connected,
    {
        self.connected
    }

    /// The next step towards a connected client.
    pub fn init_step(&self) -> (s: InitStep)
        ensures
            s == spec_init_step(self@),
            s is CreateClient <==> !self@.has_client,
            s is Connect <==> (self@.has_client && !self@.connected),
            s is Ready <==> self@.connected,
            link_wf(self@),
    {
        proof {
            use_type_invariant(self);
        }
        if !self.has_client {
            InitStep::CreateClient
        } else if !self.connected {
            InitStep::Connect
        } else {
            InitStep::Ready
        }
    }

    /// Records that the client was created.
    pub fn client_created(&mut self)
        ensures
            final(self)@ == spec_after_create(old(self)@),
            final(self)@.has_client,
            final(self)@.connected == old(self)@.connected,
    {
        self.has_client = true;
    }

    /// Records how connecting ended; a failure is reported with the text of
    /// the underlying error.
    pub fn connect_finished(&mut self, outcome: Result<(), String>) -> (r: Result<(), String>)
        ensures
            final(self)@ == spec_after_connect(old(self)@, outcome is Ok),
            final(self)@.has_client == old(self)@.has_client,
            final(self)@.connected == (old(self)@.connected || (outcome is Ok && old(
                self,
            )@.has_client)),
            r is Ok <==> outcome is Ok,
            outcome matches Err(e) ==> (r matches Err(m) && m@ == "Failed to connect to Discord RPC: "@
                + e@),
    {
        match outcome {
            Ok(()) => {
                if self.has_client {
                    self.connected = true;
                }
                Ok(())
            },
            Err(e) => {
                let mut m = String::from_str("Failed to connect to Discord RPC: ");
                m.append(e.as_str());
                Err(m)
            },
        }
    }

    /// Whether clearing the activity talks to Discord.
    pub fn should_clear(&self) -> (b: bool)
        ensures
            b == spec_is_live(self@),
            b == self@.connected,
    {
        proof {
            use_type_invariant(self);
        }
        self.connected && self.has_client
    }

    /// Whether closing talks to Discord.
    pub fn should_close(&self) -> (b: bool)
        ensures
            b == spec_is_live(self@),
            b == self@.connected,
    {
        proof {
            use_type_invariant(self);
        }
        self.connected && self.has_client
    }

    /// Records how closing ended: only a successful close drops the connection.
    pub fn close_finished(&mut self, ok: bool)
        ensures
            final(self)@ == spec_after_close(old(self)@, ok),
            final(self)@.has_client == old(self)@.has_client,
            final(self)@.connected == (old(self)@.connected && !ok),
    {
        if ok {
            self.connected = false;
        }
    }

    /// Decides what follows an attempt to show an activity: a failure asks
    /// for a reconnection. The link itself is left as it was (a client that
    /// failed to show an activity still counts as connected).
    pub fn activity_sent(&self, shown: bool) -> (next: AfterActivity)
        ensures
            next == (if shown {
                AfterActivity::Done
            } else {
                AfterActivity::Reconnect
            }),
    {
        if shown {
            AfterActivity::Done
        } else {
            AfterActivity::Reconnect
        }
    }

    /// Records how the reconnection after a failed activity ended. Either way
    /// the link is left as it was and the update is not reported as failed.
    pub fn reconnect_finished(&self, ok: bool) -> (r: Result<(), String>)
        ensures
            r is Ok,
    {
        Ok(())
    }
}

/// Every step keeps the invariant, and once a client exists it stays.
pub proof fn law_steps_keep_invariant(v: LinkView, ok: bool)
    requires
        link_wf(v),
    ensures
        link_wf(spec_after_create(v)),
        link_wf(spec_after_connect(v, ok)),
        link_wf(spec_after_close(v, ok)),
        spec_after_create(v).has_client,
        v.has_client ==> spec_after_connect(v, ok).has_client,
        v.has_client ==> spec_after_close(v, ok).has_client,
{
}

/// Getting ready from any state takes at most a creation and a connection:
/// create (when there is no client), connect, and then nothing is left to do.
pub proof fn law_init_reaches_ready(v: LinkView)
    requires
        link_wf(v),
    ensures
        ({
            let created = if spec_init_step(v) is CreateClient {
                spec_after_create(v)
            } else {
                v
            };
            &&& !(spec_init_step(created) is CreateClient)
            &&& spec_init_step(spec_after_connect(created, true)) is Ready
        }),
{
}

/// After a successful close nothing talks to Discord until the next
/// connection, and getting ready again reconnects the same client.
pub proof fn law_close_then_quiet(v: LinkView)
    requires
        link_wf(v),
    ensures
        !spec_is_live(spec_after_close(v, true)),
        v.has_client ==> spec_init_step(spec_after_close(v, true)) is Connect,
{
}

} // verus!
