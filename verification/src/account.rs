//! The structure of one account: its five text fields, their descriptors,
//! its exported form, and an ordering by name that ignores case.

use vstd::prelude::*;
use core::cmp::Ordering;
use vstd::std_specs::cmp::PartialEqSpec;
use vstd::std_specs::cmp::PartialEqSpecImpl;
use vstd::std_specs::cmp::PartialOrdSpec;
use vstd::std_specs::cmp::PartialOrdSpecImpl;
use crate::model::Data;
use crate::model::DataItem;
use crate::model::DataView;
use crate::model::Field;
use crate::model::FieldView;
use crate::model::ModelObject;
use crate::text::folded_order;
use crate::text::lowercase_of;
use crate::text::reversed;
use crate::text::order_folded;
use crate::text::same_text;
use crate::text::lemma_lex_equal;
use crate::text::lemma_lex_reversed;
use crate::text::lemma_lex_transitive;

verus! {

/// A single account. Accounts are ordered by name without regard to case;
/// they are equal only where all five fields are.
#[derive(Debug)]
pub struct Account {
    pub name: String,
    pub user: String,
    pub password: String,
    pub url: String,
    pub notes: String,
}

/// The five fields of an account as plain text.
pub struct AccountView {
    pub name: Seq<char>,
    pub user: Seq<char>,
    pub password: Seq<char>,
    pub url: Seq<char>,
    pub notes: Seq<char>,
}

impl AccountView {
    /// The value of an account after it was updated from `source`: every
    /// field, the name included, is the source's.
    pub open spec fn updated(self, source: AccountView) -> AccountView {
        source
    }

    /// The snapshot of these values: the name of the key field, then the
    /// five values under the indices 0 to 4.
    pub open spec fn snapshot(self) -> DataView {
        DataView {
            key: "Account"@,
            items: seq![
                (0u8, self.name),
                (1u8, self.user),
                (2u8, self.password),
                (3u8, self.url),
                (4u8, self.notes),
            ],
        }
    }

    /// The order of two accounts: that of their names with case folded away.
    pub open spec fn order(self, other: AccountView) -> Ordering {
        folded_order(self.name, other.name)
    }
}

impl View for Account {
    type V = AccountView;

    open spec fn view(&self) -> AccountView {
        AccountView {
            name: self.name@,
            user: self.user@,
            password: self.password@,
            url: self.url@,
            notes: self.notes@,
        }
    }
}

/// The descriptor set of accounts: name, user name, password, URL, notes.
/// The password is secret, the notes span several lines.
pub open spec fn account_fields() -> Seq<FieldView> {
    seq![
        FieldView { name: "Account"@, label: "Account"@, secret: false, multiline: false },
        FieldView { name: "Username"@, label: "Username"@, secret: false, multiline: false },
        FieldView { name: "Password"@, label: "Password"@, secret: true, multiline: false },
        FieldView { name: "URL"@, label: "URL"@, secret: false, multiline: false },
        FieldView { name: "Notes"@, label: "Notes"@, secret: false, multiline: true },
    ]
}

impl Account {
    /// A new account. All fields are empty.
    pub fn new() -> (r: Account)
        ensures
            r@.name == Seq::<char>::empty(),
            r@.user == Seq::<char>::empty(),
            r@.password == Seq::<char>::empty(),
            r@.url == Seq::<char>::empty(),
            r@.notes == Seq::<char>::empty(),
    {
        Account {
            name: String::new(),
            user: String::new(),
            password: String::new(),
            url: String::new(),
            notes: String::new(),
        }
    }

    /// Overwrites this account with `account`, the name included.
    pub fn update(&mut self, account: Account)
        ensures
            final(self)@ == old(self)@.updated(account@),
    {
        self.name = account.name;
        self.user = account.user;
        self.password = account.password;
        self.url = account.url;
        self.notes = account.notes;
    }

    /// Orders two accounts by their names, without regard to case: the
    /// names are brought to lowercase by the Unicode lowercase conversion,
    /// which depends on no locale, and then compared by code point.
    pub fn cmp(&self, other: &Account) -> (r: Ordering)
        ensures
            r == self@.order(other@),
    {
        order_folded(self.name.as_str(), other.name.as_str())
    }
}

/// Any two accounts compare, and exchanging them reverses the result:
/// the order is total.
pub proof fn lemma_order_total(a: Account, b: Account)
    ensures
        PartialOrdSpec::partial_cmp_spec(&a, &b) == Some(a@.order(b@)),
        b@.order(a@) == reversed(a@.order(b@)),
        a@.order(a@) == Ordering::Equal,
{
    lemma_lex_reversed(lowercase_of(a@.name), lowercase_of(b@.name));
    lemma_lex_equal(lowercase_of(a@.name), lowercase_of(a@.name));
}

/// The order is transitive: where `a` does not follow `b` and `b` does not
/// follow `c`, `a` does not follow `c`; and `a` precedes `c` as soon as one
/// of the two steps is strict.
pub proof fn lemma_order_transitive(a: Account, b: Account, c: Account)
    requires
        a@.order(b@) != Ordering::Greater,
        b@.order(c@) != Ordering::Greater,
    ensures
        a@.order(c@) != Ordering::Greater,
        (a@.order(b@) == Ordering::Less || b@.order(c@) == Ordering::Less) ==> a@.order(c@)
            == Ordering::Less,
{
    lemma_lex_transitive(lowercase_of(a@.name), lowercase_of(b@.name), lowercase_of(c@.name));
}

/// The order ignores case and every field but the name: two accounts are
/// equal under it exactly when their names have the same lowercase form,
/// and such accounts compare alike against any third.
pub proof fn lemma_order_ignores_case(a: Account, b: Account, c: Account)
    ensures
        (a@.order(b@) == Ordering::Equal) <==> lowercase_of(a@.name) == lowercase_of(b@.name),
        a@.order(b@) == Ordering::Equal ==> a@.order(c@) == b@.order(c@),
{
    lemma_lex_equal(lowercase_of(a@.name), lowercase_of(b@.name));
}

/// Equality is stricter than the order: two accounts that the order holds
/// equal, but that differ in user, password, URL or notes, are not equal.
pub proof fn lemma_equality_stricter_than_order(a: Account, b: Account)
    requires
        a@.order(b@) == Ordering::Equal,
        a@.user != b@.user || a@.password != b@.password || a@.url != b@.url || a@.notes
            != b@.notes,
    ensures
        !PartialEqSpec::eq_spec(&a, &b),
        a@ != b@,
{
}

/// Updating twice from the same source is updating once: either way the
/// account holds the source's fields.
pub proof fn lemma_update_idempotent(a: Account, x: Account)
    ensures
        a@.updated(x@).updated(x@) == a@.updated(x@),
        a@.updated(x@) == x@,
{
}

impl Clone for Account {
    fn clone(&self) -> (r: Account)
        ensures
            r@ == self@,
    {
        Account {
            name: self.name.clone(),
            user: self.user.clone(),
            password: self.password.clone(),
            url: self.url.clone(),
            notes: self.notes.clone(),
        }
    }
}

impl PartialEq for Account {
    fn eq(&self, other: &Account) -> (r: bool) {
        self.name == other.name && self.user == other.user && self.password == other.password
            && self.url == other.url && self.notes == other.notes
    }
}

impl PartialEqSpecImpl for Account {
    open spec fn obeys_eq_spec() -> bool {
        true
    }

    open spec fn eq_spec(&self, other: &Account) -> bool {
        self.name@ == other.name@ && self.user@ == other.user@ && self.password@
            == other.password@ && self.url@ == other.url@ && self.notes@ == other.notes@
    }
}

impl Eq for Account {

}

impl PartialOrd for Account {
    fn partial_cmp(&self, other: &Account) -> (r: Option<Ordering>) {
        Some(self.cmp(other))
    }
}

impl PartialOrdSpecImpl for Account {
    open spec fn obeys_partial_cmp_spec() -> bool {
        true
    }

    open spec fn partial_cmp_spec(&self, other: &Account) -> Option<Ordering> {
        Some(self@.order(other@))
    }
}

impl ModelObject for Account {
    open spec fn descriptors() -> Seq<FieldView> {
        account_fields()
    }

    open spec fn snapshot(&self) -> DataView {
        self@.snapshot()
    }

    proof fn lemma_descriptor_names_unique() {
        reveal_strlit("Account");
        reveal_strlit("Username");
        reveal_strlit("Password");
        reveal_strlit("URL");
        reveal_strlit("Notes");
        let f = account_fields();
        assert(f[0].name.len() == 7);
        assert(f[1].name.len() == 8 && f[1].name[0] == 'U');
        assert(f[2].name.len() == 8 && f[2].name[0] == 'P');
        assert(f[3].name.len() == 3);
        assert(f[4].name.len() == 5);
    }

    fn fields() -> (r: Vec<Field>) {
        let mut fields: Vec<Field> = Vec::new();
        fields.push(Field { name: "Account", label: "Account", secret: false, multiline: false });
        fields.push(Field { name: "Username", label: "Username", secret: false, multiline: false });
        fields.push(Field { name: "Password", label: "Password", secret: true, multiline: false });
        fields.push(Field { name: "URL", label: "URL", secret: false, multiline: false });
        fields.push(Field { name: "Notes", label: "Notes", secret: false, multiline: true });
        fields
    }

    fn field(fieldname: &str) -> (r: Option<Field>) {
        let fields = Self::fields();
        let mut i: usize = 0;
        while i < fields.len()
            invariant
                i <= fields@.len(),
                fields@.len() == account_fields().len(),
                forall|j: int| 0 <= j < fields@.len() ==> (#[trigger] fields@[j])@ == account_fields()[j],
                forall|j: int| 0 <= j < i ==> (#[trigger] account_fields()[j]).name != fieldname@,
            decreases fields@.len() - i,
        {
            if same_text(fields[i].name, fieldname) {
                return Some(fields[i].clone());
            }
            i += 1;
        }
        None
    }

    fn object_data(&self) -> (r: Data) {
        let mut contents: Vec<DataItem> = Vec::new();
        contents.push(DataItem { fieldnr: 0, contents: self.name.clone() });
        contents.push(DataItem { fieldnr: 1, contents: self.user.clone() });
        contents.push(DataItem { fieldnr: 2, contents: self.password.clone() });
        contents.push(DataItem { fieldnr: 3, contents: self.url.clone() });
        contents.push(DataItem { fieldnr: 4, contents: self.notes.clone() });
        let r = Data { key: "Account", data_items: contents };
        assert(r@.items =~= self@.snapshot().items);
        assert(account_fields()[0].name == r@.key);
        r
    }
}

} // verus!
