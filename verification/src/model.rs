//! Structures and traits that represent a model: field descriptors, the
//! exported form of a record, and the capabilities of records and stores.

use vstd::prelude::*;

verus! {

/// Describes one field of a record kind.
pub struct Field {
    pub name: &'static str,
    pub label: &'static str,
    pub secret: bool,
    pub multiline: bool,
}

/// What a field descriptor says, as plain values.
pub struct FieldView {
    pub name: Seq<char>,
    pub label: Seq<char>,
    pub secret: bool,
    pub multiline: bool,
}

impl View for Field {
    type V = FieldView;

    open spec fn view(&self) -> FieldView {
        FieldView {
            name: self.name@,
            label: self.label@,
            secret: self.secret,
            multiline: self.multiline,
        }
    }
}

impl Clone for Field {
    fn clone(&self) -> (r: Field)
        ensures
            r == *self,
    {
        Field { name: self.name, label: self.label, secret: self.secret, multiline: self.multiline }
    }
}

/// One exported value: the index of its field and the field's contents.
pub struct DataItem {
    pub fieldnr: u8,
    pub contents: String,
}

impl View for DataItem {
    type V = (u8, Seq<char>);

    open spec fn view(&self) -> (u8, Seq<char>) {
        (self.fieldnr, self.contents@)
    }
}

impl Clone for DataItem {
    fn clone(&self) -> (r: DataItem)
        ensures
            r@ == self@,
    {
        DataItem { fieldnr: self.fieldnr, contents: self.contents.clone() }
    }
}

/// A snapshot of one record: the name of its key field and its values in
/// descriptor order.
pub struct Data {
    pub key: &'static str,
    pub data_items: Vec<DataItem>,
}

/// A snapshot as plain values.
pub struct DataView {
    pub key: Seq<char>,
    pub items: Seq<(u8, Seq<char>)>,
}

impl View for Data {
    type V = DataView;

    open spec fn view(&self) -> DataView {
        DataView {
            key: self.key@,
            items: Seq::new(self.data_items@.len(), |i: int| self.data_items@[i]@),
        }
    }
}

impl Clone for Data {
    fn clone(&self) -> (r: Data)
        ensures
            r@ == self@,
    {
        let mut items: Vec<DataItem> = Vec::new();
        let mut i: usize = 0;
        while i < self.data_items.len()
            invariant
                i <= self.data_items@.len(),
                items@.len() == i,
                forall|j: int| 0 <= j < i ==> (#[trigger] items@[j])@ == self.data_items@[j]@,
            decreases self.data_items@.len() - i,
        {
            items.push(self.data_items[i].clone());
            i += 1;
        }
        let r = Data { key: self.key, data_items: items };
        assert(r@.items =~= self@.items);
        r
    }
}

/// No two descriptors of the set share a name.
pub open spec fn names_unique(fields: Seq<FieldView>) -> bool {
    forall|i: int, j: int|
        0 <= i < fields.len() && 0 <= j < fields.len() && i != j ==> fields[i].name
            != fields[j].name
}

/// In a descriptor set that holds no name twice, a name picks at most one
/// descriptor: a lookup by name has one possible answer.
pub proof fn lemma_name_picks_one(fields: Seq<FieldView>, f: FieldView, g: FieldView)
    requires
        names_unique(fields),
        fields.contains(f),
        fields.contains(g),
        f.name == g.name,
    ensures
        f == g,
{
    let i = choose|i: int| 0 <= i < fields.len() && fields[i] == f;
    let j = choose|j: int| 0 <= j < fields.len() && fields[j] == g;
    assert(i == j);
}

/// A snapshot fits a descriptor set: one value per descriptor, each tagged
/// with its descriptor's index, and the key names one of the descriptors.
pub open spec fn fits(data: DataView, fields: Seq<FieldView>) -> bool {
    &&& data.items.len() == fields.len()
    &&& forall|i: int| 0 <= i < data.items.len() ==> (#[trigger] data.items[i]).0 == i
    &&& exists|i: int| 0 <= i < fields.len() && (#[trigger] fields[i]).name == data.key
}

/// A record kind that describes its own fields and exports its values.
pub trait ModelObject {
    /// The descriptor set of the kind: fixed, ordered, the same for every
    /// instance.
    spec fn descriptors() -> Seq<FieldView>;

    /// The snapshot that an instance exports.
    spec fn snapshot(&self) -> DataView;

    /// The descriptor set holds no name twice.
    proof fn lemma_descriptor_names_unique()
        ensures
            names_unique(Self::descriptors()),
    ;

    /// The complete descriptor set of the kind, in its fixed order.
    fn fields() -> (r: Vec<Field>) where Self: Sized
        ensures
            r@.len() == Self::descriptors().len(),
            forall|i: int| 0 <= i < r@.len() ==> (#[trigger] r@[i])@ == Self::descriptors()[i],
    ;

    /// The descriptor with the given name, or none where the kind has no
    /// such field.
    fn field(fieldname: &str) -> (r: Option<Field>) where Self: Sized
        ensures
            match r {
                Some(f) => f@.name == fieldname@ && Self::descriptors().contains(f@),
                None => forall|i: int|
                    0 <= i < Self::descriptors().len() ==> (#[trigger] Self::descriptors()[i]).name
                        != fieldname@,
            },
    ;

    /// The current values of the instance as a snapshot that fits the
    /// kind's descriptor set.
    fn object_data(&self) -> (r: Data)
        ensures
            r@ == self.snapshot(),
            fits(r@, Self::descriptors()),
    ;
}

/// Why an operation on a store or on the model did not succeed.
#[derive(Clone, Copy, Debug, PartialEq, Eq, Structural)]
pub enum ModelError {
    /// The key is not in the store.
    NotFound,
    /// The key is in the store already.
    DuplicateKey,
    /// The backing store could not be reconciled with.
    SyncFailure,
}

/// What `add` returns on a store that holds `records`.
pub open spec fn add_outcome(records: Map<Seq<char>, DataView>, key: Seq<char>) -> Result<
    (),
    ModelError,
> {
    if records.contains_key(key) {
        Err(ModelError::DuplicateKey)
    } else {
        Ok(())
    }
}

/// What a store holds after `add`: the new record under its key, or, where
/// the key was taken, what it held before.
pub open spec fn after_add(
    records: Map<Seq<char>, DataView>,
    key: Seq<char>,
    data: DataView,
) -> Map<Seq<char>, DataView> {
    if records.contains_key(key) {
        records
    } else {
        records.insert(key, data)
    }
}

/// What `get` and `rm` return on a store that holds `records`: the record
/// under the key, or `NotFound`.
pub open spec fn lookup(records: Map<Seq<char>, DataView>, key: Seq<char>) -> Result<
    DataView,
    ModelError,
> {
    if records.contains_key(key) {
        Ok(records[key])
    } else {
        Err(ModelError::NotFound)
    }
}

/// What a store holds after `rm`: everything but the key.
pub open spec fn after_rm(records: Map<Seq<char>, DataView>, key: Seq<char>) -> Map<
    Seq<char>,
    DataView,
> {
    records.remove(key)
}

/// What `update` returns on a store that holds `records`.
pub open spec fn update_outcome(records: Map<Seq<char>, DataView>, key: Seq<char>) -> Result<
    (),
    ModelError,
> {
    if records.contains_key(key) {
        Ok(())
    } else {
        Err(ModelError::NotFound)
    }
}

/// What a store holds after `update`: the new record in place of the old
/// one, or, where the key was absent, what it held before.
pub open spec fn after_update(
    records: Map<Seq<char>, DataView>,
    key: Seq<char>,
    data: DataView,
) -> Map<Seq<char>, DataView> {
    if records.contains_key(key) {
        records.insert(key, data)
    } else {
        records
    }
}

/// A fetched record, or the error, as plain values.
pub open spec fn fetched(r: Result<Data, ModelError>) -> Result<DataView, ModelError> {
    match r {
        Ok(data) => Ok(data@),
        Err(e) => Err(e),
    }
}

/// The keys of a listing as plain values.
pub open spec fn key_views(keys: Seq<String>) -> Seq<Seq<char>> {
    Seq::new(keys.len(), |i: int| keys[i]@)
}

/// A keyed collection of records.
pub trait ModelList {
    /// The records that the store holds, by key.
    spec fn records(&self) -> Map<Seq<char>, DataView>;

    /// Inserts a record under a new key. A key that is present already is
    /// refused with `DuplicateKey`, and the store stays as it was.
    fn add(&mut self, key: &str, data: Data) -> (r: Result<(), ModelError>)
        ensures
            r == add_outcome(old(self).records(), key@),
            final(self).records() == after_add(old(self).records(), key@, data@),
    ;

    /// Removes the record under the key and returns it. An absent key gives
    /// `NotFound`, and the store stays as it was.
    fn rm(&mut self, key: &str) -> (r: Result<Data, ModelError>)
        ensures
            fetched(r) == lookup(old(self).records(), key@),
            final(self).records() == after_rm(old(self).records(), key@),
    ;

    /// Replaces the record under the key. An absent key gives `NotFound`,
    /// and the store stays as it was.
    fn update(&mut self, key: &str, data_after: Data) -> (r: Result<(), ModelError>)
        ensures
            r == update_outcome(old(self).records(), key@),
            final(self).records() == after_update(old(self).records(), key@, data_after@),
    ;

    /// Returns a copy of the record under the key, or `NotFound`.
    fn get(&self, key: &str) -> (r: Result<Data, ModelError>)
        ensures
            fetched(r) == lookup(self.records(), key@),
    ;

    /// Lists the keys of the store: each key once, in no promised order.
    fn keys(&self) -> (r: Vec<String>)
        ensures
            key_views(r@).no_duplicates(),
            key_views(r@).to_set() == self.records().dom(),
    ;
}

/// Adding a record under a free key and fetching it gives the record back;
/// adding under that key again is refused as a duplicate and changes
/// nothing.
pub proof fn lemma_add_then_get(
    records: Map<Seq<char>, DataView>,
    key: Seq<char>,
    data: DataView,
    again: DataView,
)
    requires
        !records.contains_key(key),
    ensures
        add_outcome(records, key) == Ok::<(), ModelError>(()),
        lookup(after_add(records, key, data), key) == Ok::<DataView, ModelError>(data),
        add_outcome(after_add(records, key, data), key) == Err::<(), ModelError>(
            ModelError::DuplicateKey,
        ),
        after_add(after_add(records, key, data), key, again) == after_add(records, key, data),
{
}

/// After a key was removed, fetching it, removing it or updating it gives
/// `NotFound`, whatever the store held.
pub proof fn lemma_rm_then_get(records: Map<Seq<char>, DataView>, key: Seq<char>)
    ensures
        lookup(after_rm(records, key), key) == Err::<DataView, ModelError>(ModelError::NotFound),
        update_outcome(after_rm(records, key), key) == Err::<(), ModelError>(
            ModelError::NotFound,
        ),
{
}

/// Updating a present key and fetching it gives the new record; the other
/// keys keep their records.
pub proof fn lemma_update_then_get(
    records: Map<Seq<char>, DataView>,
    key: Seq<char>,
    data: DataView,
    other: Seq<char>,
)
    requires
        records.contains_key(key),
    ensures
        lookup(after_update(records, key, data), key) == Ok::<DataView, ModelError>(data),
        other != key ==> lookup(after_update(records, key, data), other) == lookup(records, other),
{
}

/// A command from the presentation layer to the model.
pub enum Request {
    /// Fetch the keys of all records.
    GetModelList,
    /// Fetch the record under a key.
    GetModelObject(String),
    /// Store a record's new values under its key.
    UpdateModelObject(String, Data),
    /// Reconcile with the backing store.
    Sync,
    /// Stop the model.
    Quit,
}

/// A request as plain values.
pub enum RequestView {
    GetModelList,
    GetModelObject(Seq<char>),
    UpdateModelObject(Seq<char>, DataView),
    Sync,
    Quit,
}

impl View for Request {
    type V = RequestView;

    open spec fn view(&self) -> RequestView {
        match *self {
            Request::GetModelList => RequestView::GetModelList,
            Request::GetModelObject(key) => RequestView::GetModelObject(key@),
            Request::UpdateModelObject(key, data) => RequestView::UpdateModelObject(key@, data@),
            Request::Sync => RequestView::Sync,
            Request::Quit => RequestView::Quit,
        }
    }
}

/// A signal from the model to its subscribers.
#[derive(Clone, Copy, Debug, PartialEq, Eq, Structural)]
pub enum Notification {
    /// The data changed: fetch it again.
    RefreshData,
}

/// `std::sync::mpsc::Sender`, the sending end of a channel. Nothing is
/// stated of it: it is only handed on.
#[verifier::external_type_specification]
#[verifier::external_body]
#[verifier::reject_recursive_types(T)]
pub struct ExSender<T>(std::sync::mpsc::Sender<T>);

/// `std::sync::mpsc::Receiver`, the receiving end of a channel. Nothing is
/// stated of it: it is only handed on.
#[verifier::external_type_specification]
#[verifier::external_body]
#[verifier::reject_recursive_types(T)]
pub struct ExReceiver<T>(std::sync::mpsc::Receiver<T>);

/// The two channel ends that a running model offers to the presentation
/// layer: one to send requests into, one to receive notifications from.
pub trait ModelMsg {
    /// A handle that sends requests to the model.
    fn open_out_ch(&self) -> std::sync::mpsc::Sender<Request>;

    /// A handle that receives the model's notifications.
    fn open_in_ch(&self) -> std::sync::mpsc::Receiver<Notification>;
}

} // verus!
