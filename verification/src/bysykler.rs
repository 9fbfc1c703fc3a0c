//! The data-fetch orchestrator for the bike-share page: the state machine
//! that decides when a system-information fetch starts, exposes its
//! progress as a `FetchState`, and applies the completion that the bridge
//! delivers through the serialized update channel.
//!
//! Scheduling is single-threaded and cooperative: exactly one message is
//! fully applied before the next is considered, and a deferred fetch can
//! resolve only after the synchronous pass that scheduled it has yielded.
//! So the `Fetching` transition a selection triggers is always observed
//! strictly before the corresponding completion. If a second selection
//! arrives while an older fetch is still in flight, both run to
//! completion and whichever resolves last determines the final state,
//! even if it belongs to a superseded selection — a known design
//! limitation, kept as observable behaviour rather than fixed with a
//! generation token.

use vstd::prelude::*;
use vstd::string::StringExecFns;
use crate::fetch::FetchError;
use crate::fetch::FetchState;
use crate::gbfs::Gbfs;
use crate::gbfs::SystemInformation;
use crate::link_future::Link;
use crate::link_future::LinkFuture;
use crate::timezone::in_chrono_range;
use crate::timezone::render_timestamp;
use crate::timezone::rendered_timestamp;
use crate::timezone::zone_is_valid;

verus! {

/// The messages the component's update channel carries.
pub enum Msg {
    /// The selection control reported a newly chosen provider identifier.
    SystemChange(String),
    /// The bridge delivered the next lifecycle value: `Fetching` when a
    /// request goes out, `Success` or `Failed` when one resolves.
    SetFetchState(FetchState<Gbfs<SystemInformation>>),
}

/// The bike-share page component: the currently chosen provider, the
/// lifecycle of its system-information load, and the link that holds the
/// deferred fetches it has scheduled.
pub struct Bysykler {
    pub link: Link<String>,
    pub system: Option<String>,
    pub system_info: FetchState<Gbfs<SystemInformation>>,
}

/// The transition one message makes: a selection records the identifier,
/// enters `Fetching` and schedules a fetch for it; a delivered lifecycle
/// value replaces the current one and touches nothing else.
pub open spec fn updated(pre: Bysykler, msg: Msg, post: Bysykler) -> bool {
    match msg {
        Msg::SystemChange(id) => {
            &&& post.system == Some(id)
            &&& post.system_info is Fetching
            &&& post.link.pending() == pre.link.pending().push((id, false))
        },
        Msg::SetFetchState(fs) => {
            &&& post.system == pre.system
            &&& post.system_info == fs
            &&& post.link.pending() == pre.link.pending()
        },
    }
}

/// The lifecycle value a resolved fetch delivers: `Success` for a decoded
/// payload, `Failed` for a transport or serialization error.
pub open spec fn completion_state(outcome: Result<Gbfs<SystemInformation>, FetchError>) -> FetchState<
    Gbfs<SystemInformation>,
> {
    match outcome {
        Ok(payload) => FetchState::Success(payload),
        Err(err) => FetchState::Failed(err),
    }
}

impl Bysykler {
    /// A freshly mounted component: nothing chosen, nothing fetched,
    /// nothing scheduled.
    pub fn create() -> (r: Self)
        ensures
            r.system is None,
            r.system_info is NotFetching,
            r.link.pending() == Seq::<(String, bool)>::empty(),
    {
        Bysykler { link: Link::new(), system: None, system_info: FetchState::default() }
    }

    /// Applies one message synchronously; the returned flag asks for a
    /// re-render.
    pub fn update(&mut self, msg: Msg) -> (render: bool)
        ensures
            render,
            updated(*old(self), msg, *final(self)),
    {
        match msg {
            Msg::SystemChange(area) => {
                self.system = Some(area.clone());
                self.link.send_future(area);
                self.system_info = FetchState::Fetching;
            },
            Msg::SetFetchState(fetch) => {
                self.system_info = fetch;
            },
        }
        true
    }

    /// Applies a batch of messages, each delivered in order and applied
    /// as one state-update pass of its own; the returned flag asks for a
    /// re-render exactly when the batch was not empty.
    pub fn update_batch(&mut self, msgs: Vec<Msg>) -> (render: bool)
        ensures
            render <==> msgs@.len() > 0,
            exists|states: Seq<Bysykler>|
                {
                    &&& #[trigger] run(states, msgs@)
                    &&& states.first() == *old(self)
                    &&& states.last() == *final(self)
                },
    {
        let render = msgs.len() > 0;
        let mut rest = msgs;
        let ghost all = rest@;
        let ghost mut states: Seq<Bysykler> = seq![*self];
        while rest.len() > 0
            invariant
                1 <= states.len(),
                states.len() + rest@.len() == all.len() + 1,
                rest@ == all.skip(states.len() - 1),
                run(states, all.take(states.len() - 1)),
                states.first() == *old(self),
                states.last() == *self,
            decreases rest@.len(),
        {
            let msg = rest.remove(0);
            let ghost gmsg = msg;
            let ghost gpre = *self;
            self.update(msg);
            proof {
                let applied = all.take(states.len() - 1);
                let extended = all.take(states.len() as int);
                assert(extended.last() == gmsg);
                assert(extended.drop_last() =~= applied);
                states = states.push(*self);
                assert forall|i: int| 0 <= i < extended.len() implies updated(
                    states[i],
                    #[trigger] extended[i],
                    states[i + 1],
                ) by {
                    if i < extended.len() - 1 {
                        assert(updated(states[i], applied[i], states[i + 1]));
                    } else {
                        assert(updated(gpre, gmsg, *self));
                    }
                }
                assert(run(states, extended));
            }
        }
        proof {
            assert(all.take(states.len() - 1) =~= all);
            assert(run(states, msgs@));
        }
        render
    }

    /// New properties never change this component.
    pub fn change(&mut self, _props: ()) -> (render: bool)
        ensures
            !render,
            *final(self) == *old(self),
    {
        false
    }

    /// The first-render signal: if a selection was pre-set before the
    /// first paint, enter `Fetching` and schedule a fetch for it; on any
    /// later render, or with nothing chosen, do nothing. The runtime
    /// raises the flag at most once per component lifetime.
    pub fn rendered(&mut self, first_render: bool)
        ensures
            !first_render || old(self).system is None ==> *final(self) == *old(self),
            first_render ==> (old(self).system matches Some(id) ==> {
                &&& final(self).system == old(self).system
                &&& final(self).system_info is Fetching
                &&& final(self).link.pending() == old(self).link.pending().push((id, false))
            }),
    {
        if !first_render {
            return ;
        }
        match &self.system {
            None => {},
            Some(chosen) => {
                let system = chosen.clone();
                self.link.send_future(system);
                self.system_info = FetchState::Fetching;
            },
        }
    }

    /// Models the bridge resolving the deferred fetch registered at
    /// `index` with `outcome`: the registration leaves the link and the
    /// resulting message goes through the ordinary update channel, as one
    /// state-update pass of its own.
    pub fn complete_fetch(
        &mut self,
        index: usize,
        outcome: Result<Gbfs<SystemInformation>, FetchError>,
    ) -> (render: bool)
        requires
            index < old(self).link.pending().len(),
            !old(self).link.pending()[index as int].1,
        ensures
            render,
            final(self).system == old(self).system,
            final(self).system_info == completion_state(outcome),
            final(self).link.pending() == old(self).link.pending().remove(index as int),
    {
        let _work = self.link.take(index);
        let msg = match outcome {
            Ok(payload) => Msg::SetFetchState(FetchState::Success(payload)),
            Err(err) => Msg::SetFetchState(FetchState::Failed(err)),
        };
        self.update(msg)
    }
}

/// `states` is a run of the machine under the messages `msgs`, applied in
/// order: `states[0]` is where the run starts, and each message takes the
/// machine from the state before it to the state after it.
pub open spec fn run(states: Seq<Bysykler>, msgs: Seq<Msg>) -> bool {
    &&& states.len() == msgs.len() + 1
    &&& forall|i: int| 0 <= i < msgs.len() ==> updated(states[i], #[trigger] msgs[i], states[i + 1])
}

/// After a selection event, whatever the state it hit, the observed state
/// is `Fetching`: the transition is synchronous, and the completion can
/// only be delivered on a later turn.
pub proof fn lemma_selection_enters_loading(pre: Bysykler, id: String, post: Bysykler)
    requires
        updated(pre, Msg::SystemChange(id), post),
    ensures
        post.system_info is Fetching,
        post.system == Some(id),
{
}

/// In any run, whatever the other messages around it, the state observed
/// immediately after a selection event is `Fetching`: in particular, over
/// a run made of selection events alone, it is `Fetching` after each one.
pub proof fn lemma_selections_always_loading(states: Seq<Bysykler>, msgs: Seq<Msg>, i: int)
    requires
        run(states, msgs),
        0 <= i < msgs.len(),
        msgs[i] is SystemChange,
    ensures
        states[i + 1].system_info is Fetching,
        states[i + 1].system == Some(msgs[i]->SystemChange_0),
{
    assert(updated(states[i], msgs[i], states[i + 1]));
}

/// Completing a fetch with a decoded payload from `Fetching` yields
/// exactly `Success` with that payload.
pub proof fn lemma_ok_completion_loads(
    pre: Bysykler,
    payload: Gbfs<SystemInformation>,
    post: Bysykler,
)
    requires
        pre.system_info is Fetching,
        updated(pre, Msg::SetFetchState(completion_state(Ok(payload))), post),
    ensures
        post.system_info == FetchState::<Gbfs<SystemInformation>>::Success(payload),
        post.system == pre.system,
{
}

/// Completing a fetch with an error from `Fetching` yields exactly
/// `Failed` with that error, whatever payload any earlier load held.
pub proof fn lemma_err_completion_fails(pre: Bysykler, err: FetchError, post: Bysykler)
    requires
        pre.system_info is Fetching,
        updated(pre, Msg::SetFetchState(completion_state(Err(err))), post),
    ensures
        post.system_info == FetchState::<Gbfs<SystemInformation>>::Failed(err),
        post.system == pre.system,
{
}

/// Re-selecting the identifier whose payload is already loaded re-enters
/// `Fetching` and schedules a fresh fetch: no cached payload
/// short-circuits the reload.
pub proof fn lemma_reselect_refetches(
    pre: Bysykler,
    id: String,
    payload: Gbfs<SystemInformation>,
    post: Bysykler,
)
    requires
        pre.system == Some(id),
        pre.system_info == FetchState::<Gbfs<SystemInformation>>::Success(payload),
        updated(pre, Msg::SystemChange(id), post),
    ensures
        post.system_info is Fetching,
        post.link.pending() == pre.link.pending().push((id, false)),
{
}

/// Selection `a` then selection `b`, with `b`'s fetch resolving first and
/// `a`'s last: the final state reflects `a`'s outcome, although `a` was
/// superseded. Nothing discards a stale completion — the last delivery
/// wins. A documented non-guarantee, recorded as observed behaviour.
pub proof fn lemma_stale_completion_wins(
    s0: Bysykler,
    a: String,
    b: String,
    outcome_b: Result<Gbfs<SystemInformation>, FetchError>,
    outcome_a: Result<Gbfs<SystemInformation>, FetchError>,
    s1: Bysykler,
    s2: Bysykler,
    s3: Bysykler,
    s4: Bysykler,
)
    requires
        updated(s0, Msg::SystemChange(a), s1),
        updated(s1, Msg::SystemChange(b), s2),
        updated(s2, Msg::SetFetchState(completion_state(outcome_b)), s3),
        updated(s3, Msg::SetFetchState(completion_state(outcome_a)), s4),
    ensures
        s4.system_info == completion_state(outcome_a),
        s4.system == Some(b),
{
}

/// The text lines of the system-information card: each payload field,
/// plus the last-updated instant rendered in the system's own timezone
/// (or in UTC when the payload names an unknown zone).
#[derive(Debug)]
pub struct SystemView {
    pub system_id: String,
    pub language: String,
    pub name: String,
    pub operator: String,
    pub timezone: String,
    pub phone_number: String,
    pub email: String,
    pub last_status: String,
}

/// What the system-information card shows for a payload: every field as
/// decoded, and the last-updated instant in the payload's zone, falling
/// back to UTC when that zone name is unknown.
pub open spec fn system_view_ok(g: Gbfs<SystemInformation>, v: SystemView) -> bool {
    &&& v.system_id@ == g.data.system_id@
    &&& v.language@ == g.data.language@
    &&& v.name@ == g.data.name@
    &&& v.operator@ == g.data.operator@
    &&& v.timezone@ == g.data.timezone@
    &&& v.phone_number@ == g.data.phone_number@
    &&& v.email@ == g.data.email@
    &&& in_chrono_range(g.last_updated) ==> v.last_status@ == rendered_timestamp(
        g.last_updated as int,
        if zone_is_valid(g.data.timezone@) {
            g.data.timezone@
        } else {
            "UTC"@
        },
    )
    &&& !in_chrono_range(g.last_updated) ==> v.last_status@ == Seq::<char>::empty()
}

/// Builds the system-information card for one decoded payload.
pub fn system_view(system: &Gbfs<SystemInformation>) -> (v: SystemView)
    ensures
        system_view_ok(*system, v),
{
    let last_status = match render_timestamp(system.last_updated, system.data.timezone.as_str()) {
        Some(text) => text,
        None => String::new(),
    };
    SystemView {
        system_id: system.data.system_id.clone(),
        language: system.data.language.clone(),
        name: system.data.name.clone(),
        operator: system.data.operator.clone(),
        timezone: system.data.timezone.clone(),
        phone_number: system.data.phone_number.clone(),
        email: system.data.email.clone(),
        last_status,
    }
}

/// What the page shows for each lifecycle state: nothing before any
/// request, a progress indicator while one is in flight, the
/// system-information card on success, the diagnostic on failure.
#[derive(Debug)]
pub enum RenderedPage {
    Nothing,
    Loading,
    System(SystemView),
    Failure(String),
}

impl Bysykler {
    /// Renders the current lifecycle state; the `FetchState` value is the
    /// only channel the rendering reads fetch progress from.
    pub fn view(&self) -> (r: RenderedPage)
        ensures
            match self.system_info {
                FetchState::NotFetching => r is Nothing,
                FetchState::Fetching => r is Loading,
                FetchState::Success(g) => r matches RenderedPage::System(v) && system_view_ok(
                    g,
                    v,
                ),
                FetchState::Failed(e) => r matches RenderedPage::Failure(m) && m@ == e.text(),
            },
    {
        match &self.system_info {
            FetchState::NotFetching => RenderedPage::Nothing,
            FetchState::Fetching => RenderedPage::Loading,
            FetchState::Success(g) => RenderedPage::System(system_view(g)),
            FetchState::Failed(e) => RenderedPage::Failure(e.message().clone()),
        }
    }
}

/// The bike-share systems the page offers, ordered as displayed.
pub fn system_options() -> (r: Vec<String>)
    ensures
        r@.len() == 5,
        r@[0]@ == "oslobysykkel.no"@,
        r@[1]@ == "bergenbysykkel.no"@,
        r@[2]@ == "trondheimbysykkel.no"@,
        r@[3]@ == "edinburghcyclehire.com"@,
        r@[4]@ == "oslovintersykkel.no"@,
{
    let mut options: Vec<String> = Vec::new();
    options.push("oslobysykkel.no".to_owned());
    options.push("bergenbysykkel.no".to_owned());
    options.push("trondheimbysykkel.no".to_owned());
    options.push("edinburghcyclehire.com".to_owned());
    options.push("oslovintersykkel.no".to_owned());
    options
}

/// The identifier sent on the actual request, not only the preflight: the
/// upstream server's preflight response does not echo custom headers.
pub fn client_identifier() -> (r: &'static str)
    ensures
        r@ == "stigjb-norske-api-er"@,
{
    "stigjb-norske-api-er"
}

/// The provider-specific endpoint a selection is fetched from.
pub fn system_info_url(system: &str) -> (r: String)
    ensures
        r@ == "https://gbfs.urbansharing.com/"@ + system@ + "/system_information.json"@,
{
    let mut url = String::new();
    url.append("https://gbfs.urbansharing.com/");
    url.append(system);
    url.append("/system_information.json");
    proof {
        assert(url@ =~= "https://gbfs.urbansharing.com/"@ + system@
            + "/system_information.json"@);
    }
    url
}

} // verus!
