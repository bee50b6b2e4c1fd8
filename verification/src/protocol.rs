//! The model's side of the request/notification protocol, as a state
//! machine: each step takes one event, changes the store and the state, and
//! says what is to be done next. Whoever runs the model owns the channels,
//! performs the actions and reaches the backing store.

use vstd::prelude::*;
use crate::model::Data;
use crate::model::DataView;
use crate::model::ModelError;
use crate::model::ModelList;
use crate::model::Notification;
use crate::model::Request;
use crate::model::RequestView;
use crate::model::after_update;
use crate::model::key_views;

verus! {

/// Whether the model still takes requests.
#[derive(Clone, Copy, Debug, PartialEq, Eq, Structural)]
pub enum ModelState {
    /// Requests are processed.
    Running,
    /// The model was told to quit. Nothing is processed any more.
    Stopped,
}

/// What came of an attempt to reconcile with the backing store.
pub enum Pulled<L> {
    /// The backing store could not be reached or read.
    Unreachable,
    /// The backing store holds nothing new.
    Unchanged,
    /// The backing store differs: this is its content.
    Replaced(L),
}

/// What the runner of the model is to do after a step.
pub enum Action {
    /// Answer a listing with these keys.
    Keys(Vec<String>),
    /// Answer a fetch with this record.
    Object(Data),
    /// Broadcast the notification to all subscribers.
    Notify(Notification),
    /// Reach the backing store and hand what it says to `finish_sync`.
    Pull,
    /// The request failed. Nothing changed and nothing is broadcast.
    Report(ModelError),
    /// Close the notification channel and take no further request.
    Close,
    /// Nothing is to be done.
    Nothing,
}

/// An action as plain values.
pub enum ActionView {
    Keys(Seq<Seq<char>>),
    Object(DataView),
    Notify(Notification),
    Pull,
    Report(ModelError),
    Close,
    Nothing,
}

impl View for Action {
    type V = ActionView;

    open spec fn view(&self) -> ActionView {
        match *self {
            Action::Keys(keys) => ActionView::Keys(key_views(keys@)),
            Action::Object(data) => ActionView::Object(data@),
            Action::Notify(n) => ActionView::Notify(n),
            Action::Pull => ActionView::Pull,
            Action::Report(e) => ActionView::Report(e),
            Action::Close => ActionView::Close,
            Action::Nothing => ActionView::Nothing,
        }
    }
}

/// The state after a request: `Quit` stops the model, and a stopped model
/// stays stopped.
pub open spec fn state_after(state: ModelState, request: RequestView) -> ModelState {
    match request {
        RequestView::Quit => ModelState::Stopped,
        _ => state,
    }
}

/// The records after a request: only an update of a running model changes
/// them.
pub open spec fn records_after(
    state: ModelState,
    records: Map<Seq<char>, DataView>,
    request: RequestView,
) -> Map<Seq<char>, DataView> {
    match (state, request) {
        (ModelState::Running, RequestView::UpdateModelObject(key, data)) => after_update(
            records,
            key,
            data,
        ),
        _ => records,
    }
}

/// Whether `action` is the answer that a model in `state`, holding
/// `records`, gives to `request`.
pub open spec fn answers(
    state: ModelState,
    records: Map<Seq<char>, DataView>,
    request: RequestView,
    action: ActionView,
) -> bool {
    match state {
        ModelState::Stopped => action == ActionView::Nothing,
        ModelState::Running => match request {
            RequestView::GetModelList => match action {
                ActionView::Keys(keys) => keys.no_duplicates() && keys.to_set() == records.dom(),
                _ => false,
            },
            RequestView::GetModelObject(key) => if records.contains_key(key) {
                action == ActionView::Object(records[key])
            } else {
                action == ActionView::Report(ModelError::NotFound)
            },
            RequestView::UpdateModelObject(key, data) => if records.contains_key(key) {
                action == ActionView::Notify(Notification::RefreshData)
            } else {
                action == ActionView::Report(ModelError::NotFound)
            },
            RequestView::Sync => action == ActionView::Pull,
            RequestView::Quit => action == ActionView::Close,
        },
    }
}

/// What a pull brought, as plain values: the new records where there are
/// any.
pub enum PulledView {
    Unreachable,
    Unchanged,
    Replaced(Map<Seq<char>, DataView>),
}

/// The records after a pull: a running model takes over what the backing
/// store holds; a failed pull, or one that brought nothing new, leaves the
/// records as they were.
pub open spec fn records_after_pull(
    state: ModelState,
    records: Map<Seq<char>, DataView>,
    pulled: PulledView,
) -> Map<Seq<char>, DataView> {
    match (state, pulled) {
        (ModelState::Running, PulledView::Replaced(fresh)) => fresh,
        _ => records,
    }
}

/// The action after a pull: a notification where the records were
/// replaced, `SyncFailure` where the backing store was out of reach.
pub open spec fn action_after_pull(state: ModelState, pulled: PulledView) -> ActionView {
    match (state, pulled) {
        (ModelState::Running, PulledView::Replaced(_)) => ActionView::Notify(
            Notification::RefreshData,
        ),
        (ModelState::Running, PulledView::Unreachable) => ActionView::Report(
            ModelError::SyncFailure,
        ),
        _ => ActionView::Nothing,
    }
}

impl<L: ModelList> View for Pulled<L> {
    type V = PulledView;

    open spec fn view(&self) -> PulledView {
        match *self {
            Pulled::Unreachable => PulledView::Unreachable,
            Pulled::Unchanged => PulledView::Unchanged,
            Pulled::Replaced(list) => PulledView::Replaced(list.records()),
        }
    }
}

/// The model: a store of records and the state of the protocol.
pub struct Model<L: ModelList> {
    list: L,
    state: ModelState,
}

impl<L: ModelList> Model<L> {
    /// The records that the model holds.
    pub closed spec fn records(&self) -> Map<Seq<char>, DataView> {
        self.list.records()
    }

    /// The state of the protocol.
    pub closed spec fn state(&self) -> ModelState {
        self.state
    }

    /// A running model over the given store.
    pub fn new(list: L) -> (r: Model<L>)
        ensures
            r.state() == ModelState::Running,
            r.records() == list.records(),
    {
        Model { list, state: ModelState::Running }
    }

    /// Whether the model still takes requests.
    pub fn is_running(&self) -> (r: bool)
        ensures
            r == (self.state() == ModelState::Running),
    {
        self.state == ModelState::Running
    }

    /// Processes one request to its end. A stopped model ignores it.
    pub fn process(&mut self, request: Request) -> (action: Action)
        ensures
            final(self).state() == state_after(old(self).state(), request@),
            final(self).records() == records_after(old(self).state(), old(self).records(), request@),
            answers(old(self).state(), old(self).records(), request@, action@),
    {
        if self.state == ModelState::Stopped {
            return Action::Nothing;
        }
        match request {
            Request::GetModelList => Action::Keys(self.list.keys()),
            Request::GetModelObject(key) => match self.list.get(key.as_str()) {
                Ok(data) => Action::Object(data),
                Err(e) => Action::Report(e),
            },
            Request::UpdateModelObject(key, data) => match self.list.update(key.as_str(), data) {
                Ok(()) => Action::Notify(Notification::RefreshData),
                Err(e) => Action::Report(e),
            },
            Request::Sync => Action::Pull,
            Request::Quit => {
                self.state = ModelState::Stopped;
                Action::Close
            },
        }
    }

    /// Ends a synchronization with what the pull brought.
    pub fn finish_sync(&mut self, pulled: Pulled<L>) -> (action: Action)
        ensures
            final(self).state() == old(self).state(),
            final(self).records() == records_after_pull(
                old(self).state(),
                old(self).records(),
                pulled@,
            ),
            action@ == action_after_pull(old(self).state(), pulled@),
    {
        if self.state == ModelState::Stopped {
            return Action::Nothing;
        }
        match pulled {
            Pulled::Unreachable => Action::Report(ModelError::SyncFailure),
            Pulled::Unchanged => Action::Nothing,
            Pulled::Replaced(list) => {
                self.list = list;
                Action::Notify(Notification::RefreshData)
            },
        }
    }
}

/// A stopped model processes nothing: whatever is submitted, it stays
/// stopped, keeps its records and asks for nothing to be done.
pub proof fn lemma_stopped_is_terminal(
    records: Map<Seq<char>, DataView>,
    request: RequestView,
    pulled: PulledView,
    action: ActionView,
)
    requires
        answers(ModelState::Stopped, records, request, action),
    ensures
        state_after(ModelState::Stopped, request) == ModelState::Stopped,
        records_after(ModelState::Stopped, records, request) == records,
        action == ActionView::Nothing,
        records_after_pull(ModelState::Stopped, records, pulled) == records,
        action_after_pull(ModelState::Stopped, pulled) == ActionView::Nothing,
{
}

/// Every change is announced: a request that changes the records is
/// answered with the notification that the data changed.
pub proof fn lemma_change_is_notified(
    state: ModelState,
    records: Map<Seq<char>, DataView>,
    request: RequestView,
    action: ActionView,
)
    requires
        answers(state, records, request, action),
        records_after(state, records, request) != records,
    ensures
        action == ActionView::Notify(Notification::RefreshData),
{
}

/// A pull that changes the records of the model is announced as well.
pub proof fn lemma_pulled_change_is_notified(
    state: ModelState,
    records: Map<Seq<char>, DataView>,
    pulled: PulledView,
)
    requires
        records_after_pull(state, records, pulled) != records,
    ensures
        action_after_pull(state, pulled) == ActionView::Notify(Notification::RefreshData),
{
}

/// A failed synchronization changes nothing and announces nothing.
pub proof fn lemma_failed_sync_keeps_records(state: ModelState, records: Map<Seq<char>, DataView>)
    ensures
        records_after_pull(state, records, PulledView::Unreachable) == records,
        action_after_pull(state, PulledView::Unreachable) != ActionView::Notify(
            Notification::RefreshData,
        ),
{
}

} // verus!
