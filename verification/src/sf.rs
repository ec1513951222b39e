//! The entity catalog, the qualified-field value object, and the backend
//! client interface.

use crate::text;
use vstd::prelude::*;
use vstd::string::StrSliceExecFns;
use vstd::string::StringExecFns;

verus! {

/// The closed set of record kinds the backend knows about.
#[derive(Copy, Clone, Debug, PartialEq, Eq, Structural)]
pub enum Entity {
    Account,
    Asset,
    Contact,
    Opportunity,
    OpportunityLineItem,
}

/// A failure reported when talking to the backend: either a message carried
/// over verbatim, or a zero-row result.
#[derive(Clone, Debug)]
pub enum Error {
    Message(String),
    NotFound,
}

/// The mathematical value of an [`Error`].
pub enum ErrorView {
    Message(Seq<char>),
    NotFound,
}

impl View for Error {
    type V = ErrorView;

    open spec fn view(&self) -> ErrorView {
        match self {
            Error::Message(m) => ErrorView::Message(m@),
            Error::NotFound => ErrorView::NotFound,
        }
    }
}

/// The text an [`Error`] presents to the user.
pub open spec fn spec_error_message(e: ErrorView) -> Seq<char> {
    match e {
        ErrorView::Message(m) => m,
        ErrorView::NotFound => "salesforce entity not found"@,
    }
}

impl Error {
    /// The text this failure presents to the user.
    pub fn to_message(&self) -> (r: String)
        ensures
            r@ == spec_error_message(self@),
    {
        match self {
            Error::Message(m) => m.clone(),
            Error::NotFound => "salesforce entity not found".to_owned(),
        }
    }
}

/// The canonical name of an entity kind, as it appears in queries and in
/// "Kind.field" strings.
pub open spec fn spec_entity_name(e: Entity) -> Seq<char> {
    match e {
        Entity::Account => "Account"@,
        Entity::Asset => "Asset"@,
        Entity::Contact => "Contact"@,
        Entity::Opportunity => "Opportunity"@,
        Entity::OpportunityLineItem => "OpportunityLineItem"@,
    }
}

/// The entity kind whose canonical name is `n`, if any. Matching is
/// case-sensitive and exact.
pub open spec fn spec_entity_from_name(n: Seq<char>) -> Option<Entity> {
    if n == "Account"@ {
        Some(Entity::Account)
    } else if n == "Asset"@ {
        Some(Entity::Asset)
    } else if n == "Contact"@ {
        Some(Entity::Contact)
    } else if n == "Opportunity"@ {
        Some(Entity::Opportunity)
    } else if n == "OpportunityLineItem"@ {
        Some(Entity::OpportunityLineItem)
    } else {
        None
    }
}

/// The entity kind an id of the backend belongs to: ids are 15 or 18
/// characters long and carry a 3-character kind prefix.
pub open spec fn spec_entity_from_id(id: Seq<char>) -> Option<Entity> {
    if id.len() == 15 || id.len() == 18 {
        let p = id.subrange(0, 3);
        if p == "001"@ {
            Some(Entity::Account)
        } else if p == "02i"@ {
            Some(Entity::Asset)
        } else if p == "003"@ {
            Some(Entity::Contact)
        } else if p == "006"@ {
            Some(Entity::Opportunity)
        } else {
            None
        }
    } else {
        None
    }
}

/// The message reported for a kind name outside the catalog.
pub open spec fn spec_invalid_entity_msg(n: Seq<char>) -> Seq<char> {
    text::spec_quoted("invalid entity "@, n)
}

impl Entity {
    /// The canonical name of this entity kind.
    pub fn name(&self) -> (r: String)
        ensures
            r@ == spec_entity_name(*self),
    {
        match self {
            Entity::Account => "Account".to_owned(),
            Entity::Asset => "Asset".to_owned(),
            Entity::Contact => "Contact".to_owned(),
            Entity::Opportunity => "Opportunity".to_owned(),
            Entity::OpportunityLineItem => "OpportunityLineItem".to_owned(),
        }
    }

    /// Look the entity kind up by its canonical name; any other name is
    /// rejected with a message naming it.
    pub fn from_str(s: &str) -> (r: Result<Entity, Error>)
        ensures
            match spec_entity_from_name(s@) {
                Some(e) => r == Ok::<Entity, Error>(e),
                None => r matches Err(e) && e@ == ErrorView::Message(spec_invalid_entity_msg(s@)),
            },
    {
        if text::str_eq(s, "Account") {
            Ok(Entity::Account)
        } else if text::str_eq(s, "Asset") {
            Ok(Entity::Asset)
        } else if text::str_eq(s, "Contact") {
            Ok(Entity::Contact)
        } else if text::str_eq(s, "Opportunity") {
            Ok(Entity::Opportunity)
        } else if text::str_eq(s, "OpportunityLineItem") {
            Ok(Entity::OpportunityLineItem)
        } else {
            Err(Error::Message(text::quoted("invalid entity ", s)))
        }
    }

    /// Classify an id of the backend by its length and 3-character prefix.
    /// Line items have no id-prefix form and are never returned here.
    pub fn from_id(id: &str) -> (r: Option<Entity>)
        ensures
            r == spec_entity_from_id(id@),
    {
        let len = id.unicode_len();
        if len != 15 && len != 18 {
            return None;
        }
        let p = id.substring_char(0, 3);
        if text::str_eq(p, "001") {
            Some(Entity::Account)
        } else if text::str_eq(p, "02i") {
            Some(Entity::Asset)
        } else if text::str_eq(p, "003") {
            Some(Entity::Contact)
        } else if text::str_eq(p, "006") {
            Some(Entity::Opportunity)
        } else {
            None
        }
    }

    /// Pair this entity kind with the given field name.
    pub fn to_field(&self, name: &str) -> (r: EntityField)
        ensures
            r.entity == *self,
            r.field@ == name@,
    {
        EntityField { entity: *self, field: name.to_owned() }
    }
}

/// One column on one entity kind: the unit in which extra output fields and
/// search predicates are configured.
#[derive(Clone, Debug)]
pub struct EntityField {
    pub entity: Entity,
    pub field: String,
}

/// The mathematical value of an [`EntityField`].
pub struct FieldView {
    pub entity: Entity,
    pub name: Seq<char>,
}

impl View for EntityField {
    type V = FieldView;

    open spec fn view(&self) -> FieldView {
        FieldView { entity: self.entity, name: self.field@ }
    }
}

impl DeepView for EntityField {
    type V = FieldView;

    open spec fn deep_view(&self) -> FieldView {
        self@
    }
}

/// True when no character of `s` is a dot.
pub open spec fn dot_free(s: Seq<char>) -> bool {
    forall|i: int| 0 <= i < s.len() ==> s[i] != '.'
}

/// True when `i` is the position of the only dot in `s`.
pub open spec fn splits_at(s: Seq<char>, i: int) -> bool {
    &&& 0 <= i < s.len()
    &&& s[i] == '.'
    &&& dot_free(s.subrange(0, i))
    &&& dot_free(s.subrange(i + 1, s.len() as int))
}

/// A string has at most one position that splits it.
pub proof fn lemma_splits_at_unique(s: Seq<char>, i: int, j: int)
    requires
        splits_at(s, i),
        splits_at(s, j),
    ensures
        i == j,
{
    if i < j {
        assert(s.subrange(i + 1, s.len() as int)[j - i - 1] == s[j]);
    }
    if j < i {
        assert(s.subrange(j + 1, s.len() as int)[i - j - 1] == s[i]);
    }
}

/// The message reported for a string that does not split into exactly two
/// dot-separated segments.
pub open spec fn spec_invalid_field_msg(s: Seq<char>) -> Seq<char> {
    text::spec_quoted("invalid entity field "@, s)
}

/// The message reported for a well-split string whose kind segment is outside
/// the catalog.
pub open spec fn spec_cannot_parse_msg(s: Seq<char>, kind: Seq<char>) -> Seq<char> {
    text::spec_quoted("cannot parse entity field "@, s) + ": "@ + spec_invalid_entity_msg(kind)
}

/// Parse a "Kind.field" string: it must hold exactly one dot, and the segment
/// before the dot must be a canonical kind name. The field segment is kept
/// verbatim. On failure the result is the reported message.
pub open spec fn spec_parse_entity_field(s: Seq<char>) -> Result<FieldView, Seq<char>> {
    if exists|i: int| splits_at(s, i) {
        let i = choose|i: int| splits_at(s, i);
        let kind = s.subrange(0, i);
        match spec_entity_from_name(kind) {
            Some(e) => Ok(FieldView { entity: e, name: s.subrange(i + 1, s.len() as int) }),
            None => Err(spec_cannot_parse_msg(s, kind)),
        }
    } else {
        Err(spec_invalid_field_msg(s))
    }
}

/// The "Kind.field" rendering of a qualified field.
pub open spec fn spec_field_string(fv: FieldView) -> Seq<char> {
    spec_entity_name(fv.entity) + "."@ + fv.name
}

impl EntityField {
    /// Parse a qualified field from its "Kind.field" string form.
    pub fn from_str(s: &str) -> (r: Result<EntityField, Error>)
        ensures
            match spec_parse_entity_field(s@) {
                Ok(fv) => r matches Ok(ef) && ef@ == fv,
                Err(m) => r matches Err(e) && e@ == ErrorView::Message(m),
            },
    {
        let len = s.unicode_len();
        let mut i: usize = 0;
        let mut ndots: usize = 0;
        let mut dot1: usize = 0;
        let mut dot2: usize = 0;
        while i < len
            invariant
                i <= len,
                len == s@.len(),
                ndots == 0 ==> forall|j: int| 0 <= j < i ==> s@[j] != '.',
                ndots >= 1 ==> dot1 < i && s@[dot1 as int] == '.' && dot_free(
                    s@.subrange(0, dot1 as int),
                ),
                ndots == 1 ==> forall|j: int| dot1 < j < i ==> s@[j] != '.',
                ndots >= 2 ==> dot1 < dot2 < i && s@[dot2 as int] == '.',
            decreases len - i,
        {
            if s.get_char(i) == '.' {
                if ndots == 0 {
                    dot1 = i;
                    ndots = 1;
                } else if ndots == 1 {
                    dot2 = i;
                    ndots = 2;
                }
            }
            i = i + 1;
        }
        if ndots == 0 {
            proof {
                assert(forall|k: int| !splits_at(s@, k));
            }
            return Err(Error::Message(text::quoted("invalid entity field ", s)));
        }
        if ndots >= 2 {
            proof {
                assert forall|k: int| !splits_at(s@, k) by {
                    if splits_at(s@, k) {
                        if k < dot2 {
                            let d2 = dot2 as int;
                            assert(s@.subrange(k + 1, s@.len() as int)[d2 - k - 1] == s@[d2]);
                        }
                        if k > dot1 {
                            assert(s@.subrange(0, k)[dot1 as int] == s@[dot1 as int]);
                        }
                    }
                }
            }
            return Err(Error::Message(text::quoted("invalid entity field ", s)));
        }
        proof {
            assert(s@.subrange(dot1 + 1, s@.len() as int) =~= Seq::new(
                (s@.len() - dot1 - 1) as nat,
                |j: int| s@[dot1 + 1 + j],
            ));
            assert(splits_at(s@, dot1 as int));
            let k = choose|k: int| splits_at(s@, k);
            lemma_splits_at_unique(s@, k, dot1 as int);
        }
        let kind_part = s.substring_char(0, dot1);
        let name_part = s.substring_char(dot1 + 1, len);
        match Entity::from_str(kind_part) {
            Ok(entity) => Ok(EntityField { entity, field: name_part.to_owned() }),
            Err(err) => {
                let mut m = text::quoted("cannot parse entity field ", s);
                m.append(": ");
                let inner = err.to_message();
                m.append(inner.as_str());
                Err(Error::Message(m))
            },
        }
    }

    /// Render this qualified field in its "Kind.field" string form.
    pub fn to_string(&self) -> (r: String)
        ensures
            r@ == spec_field_string(self@),
    {
        let mut m = self.entity.name();
        m.append(".");
        m.append(self.field.as_str());
        m
    }
}

/// The canonical kind names round-trip through the catalog lookup, hold no
/// dot, and are never empty.
pub proof fn lemma_entity_name_round_trip(e: Entity)
    ensures
        spec_entity_from_name(spec_entity_name(e)) == Some(e),
        dot_free(spec_entity_name(e)),
        spec_entity_name(e).len() > 0,
{
    reveal_strlit("Account");
    reveal_strlit("Asset");
    reveal_strlit("Contact");
    reveal_strlit("Opportunity");
    reveal_strlit("OpportunityLineItem");
    assert("Contact"@[0] == 'C' && "Account"@[0] == 'A');
    let s = spec_entity_name(e);
    match e {
        Entity::Account => {
            assert(s[0] == 'A' && s[1] == 'c' && s[2] == 'c' && s[3] == 'o' && s[4] == 'u' && s[5]
                == 'n' && s[6] == 't');
        },
        Entity::Asset => {
            assert(s[0] == 'A' && s[1] == 's' && s[2] == 's' && s[3] == 'e' && s[4] == 't');
            assert(s.len() != "Account"@.len());
        },
        Entity::Contact => {
            assert(s[0] == 'C' && s[1] == 'o' && s[2] == 'n' && s[3] == 't' && s[4] == 'a' && s[5]
                == 'c' && s[6] == 't');
            assert(s != "Account"@) by {
                assert(s[0] != "Account"@[0]);
            }
            assert(s.len() != "Asset"@.len());
        },
        Entity::Opportunity => {
            assert(s[0] == 'O' && s[1] == 'p' && s[2] == 'p' && s[3] == 'o' && s[4] == 'r' && s[5]
                == 't' && s[6] == 'u' && s[7] == 'n' && s[8] == 'i' && s[9] == 't' && s[10] == 'y');
            assert(s.len() != "Account"@.len() && s.len() != "Asset"@.len() && s.len()
                != "Contact"@.len());
        },
        Entity::OpportunityLineItem => {
            assert(s[0] == 'O' && s[1] == 'p' && s[2] == 'p' && s[3] == 'o' && s[4] == 'r' && s[5]
                == 't' && s[6] == 'u' && s[7] == 'n' && s[8] == 'i' && s[9] == 't' && s[10] == 'y'
                && s[11] == 'L' && s[12] == 'i' && s[13] == 'n' && s[14] == 'e' && s[15] == 'I');
            assert(s[16] == 't' && s[17] == 'e' && s[18] == 'm');
            assert(s.len() != "Account"@.len() && s.len() != "Asset"@.len() && s.len()
                != "Contact"@.len() && s.len() != "Opportunity"@.len());
        },
    }
}

/// A collection of related records nested under a parent record.
#[derive(Clone, Debug)]
pub struct Related<T> {
    pub records: Vec<T>,
}

/// A mailing address on the root record. Every component is optional.
#[derive(Clone, Debug)]
pub struct Address {
    pub city: Option<String>,
    pub country: Option<String>,
    pub postal_code: Option<String>,
    pub state: Option<String>,
    pub street: Option<String>,
}

/// The product an asset refers to.
#[derive(Clone, Debug)]
pub struct Product {
    pub name: String,
    pub product_code: String,
    pub last_modified_date: Option<String>,
}

/// The record type tag on an opportunity.
#[derive(Clone, Debug)]
pub struct RecordType {
    pub name: String,
}

/// An asset related to the account. Numeric columns are carried as the
/// decimal text the backend reported, which keeps the core free of floating
/// point; rendering interprets them. The `extra` pairs keep unknown columns
/// verbatim as raw backend text.
#[derive(Clone, Debug)]
pub struct Asset {
    pub id: String,
    pub name: String,
    pub product: Product,
    pub price: Option<String>,
    pub quantity: Option<String>,
    pub status: Option<String>,
    pub contact_id: String,
    pub install_date: Option<String>,
    pub purchase_date: Option<String>,
    pub usage_end_date: Option<String>,
    pub created_date: String,
    pub last_modified_date: Option<String>,
    pub extra: Vec<(String, String)>,
}

/// A contact related to the account.
#[derive(Clone, Debug)]
pub struct Contact {
    pub id: String,
    pub email: String,
    pub first_name: Option<String>,
    pub last_name: Option<String>,
    pub created_date: String,
    pub last_modified_date: Option<String>,
    pub extra: Vec<(String, String)>,
}

/// One line item under an opportunity, fetched in the second pass.
#[derive(Clone, Debug)]
pub struct LineItem {
    pub unit_price: Option<String>,
    pub quantity: Option<String>,
    pub total_price: Option<String>,
    pub currency_iso_code: Option<String>,
    pub service_date: Option<String>,
    pub extra: Vec<(String, String)>,
}

/// An opportunity related to the account. Its line items cannot be nested in
/// the composite read and are attached afterwards.
#[derive(Clone, Debug)]
pub struct Opportunity {
    pub id: String,
    pub name: String,
    pub record_type: RecordType,
    pub stage_name: Option<String>,
    pub amount: Option<String>,
    pub currency_iso_code: Option<String>,
    pub is_won: bool,
    pub is_closed: bool,
    pub close_date: Option<String>,
    pub lead_source: Option<String>,
    pub created_date: String,
    pub last_modified_date: Option<String>,
    pub line_items: Vec<LineItem>,
    pub extra: Vec<(String, String)>,
}

/// The hydrated root record: the account itself plus its three related
/// collections.
#[derive(Clone, Debug)]
pub struct Account {
    pub id: String,
    pub name: String,
    pub account_number: Option<String>,
    pub billing_address: Address,
    pub created_date: String,
    pub last_modified_date: Option<String>,
    pub assets: Related<Asset>,
    pub contacts: Related<Contact>,
    pub opportunities: Related<Opportunity>,
    pub extra: Vec<(String, String)>,
}

/// One row of an id-resolution query against the root kind.
#[derive(Clone, Debug)]
pub struct ObjectWithID {
    pub id: String,
}

/// One row of an id-resolution query against a child kind: it carries the
/// parent account's id.
#[derive(Clone, Debug)]
pub struct AccountChild {
    pub account_id: String,
}

/// Take the first record of a query result; a zero-row result is the
/// `NotFound` failure.
pub fn get_one<T>(records: Vec<T>) -> (r: Result<T, Error>)
    ensures
        records@.len() == 0 ==> (r matches Err(e) && e@ == ErrorView::NotFound),
        records@.len() > 0 ==> (r matches Ok(t) && t == records@[0]),
{
    let mut records = records;
    if records.len() == 0 {
        Err(Error::NotFound)
    } else {
        Ok(records.remove(0))
    }
}

/// Attach one fetched line-item list to each opportunity of the account, in
/// order: the explicit second pass that works around the backend's one-level
/// nesting limit. Every other part of the account is kept unchanged.
pub fn attach_line_items(acc: Account, items: Vec<Vec<LineItem>>) -> (r: Account)
    requires
        items@.len() == acc.opportunities.records@.len(),
    ensures
        r == (Account { opportunities: r.opportunities, ..acc }),
        r.opportunities.records@.len() == acc.opportunities.records@.len(),
        forall|j: int|
            0 <= j < r.opportunities.records@.len() ==> #[trigger] r.opportunities.records@[j]
                == (Opportunity { line_items: items@[j], ..acc.opportunities.records@[j] }),
{
    let Account {
        id,
        name,
        account_number,
        billing_address,
        created_date,
        last_modified_date,
        assets,
        contacts,
        opportunities,
        extra,
    } = acc;
    let mut recs = opportunities.records;
    let mut items = items;
    let ghost recs0 = recs@;
    let ghost items0 = items@;
    let n = recs.len();
    let mut out: Vec<Opportunity> = Vec::new();
    let mut i: usize = 0;
    while i < n
        invariant
            n == recs0.len(),
            items0.len() == n,
            i <= n,
            out@.len() == i,
            recs@ == recs0.subrange(i as int, n as int),
            items@ == items0.subrange(i as int, n as int),
            forall|j: int|
                0 <= j < i ==> #[trigger] out@[j] == (Opportunity {
                    line_items: items0[j],
                    ..recs0[j]
                }),
        decreases n - i,
    {
        let mut o = recs.remove(0);
        let li = items.remove(0);
        o.line_items = li;
        out.push(o);
        proof {
            assert(recs@ =~= recs0.subrange(i + 1, n as int));
            assert(items@ =~= items0.subrange(i + 1, n as int));
        }
        i = i + 1;
    }
    Account {
        id,
        name,
        account_number,
        billing_address,
        created_date,
        last_modified_date,
        assets,
        contacts,
        opportunities: Related { records: out },
        extra,
    }
}

/// The two-operation capability over the backend: resolve an account id by a
/// field/value predicate, and fetch a hydrated account by id. An
/// implementation describes the outcomes it will report through the two spec
/// functions, and the library's orchestration is verified against whatever
/// behaviour a conforming implementation declares.
pub trait Client {
    /// The outcome the id lookup reports for the given field and value. An
    /// implementation that does not override this description is taken to
    /// report a zero-row result for every lookup.
    open spec fn id_lookup(&self, field: FieldView, value: Seq<char>) -> Result<Seq<char>, ErrorView> {
        Err(ErrorView::NotFound)
    }

    /// The outcome the account fetch reports for the given id and extension
    /// fields. An implementation that does not override this description is
    /// taken to report a zero-row result for every fetch.
    open spec fn account_fetch(&self, id: Seq<char>, additional: Seq<FieldView>) -> Result<
        Account,
        ErrorView,
    > {
        Err(ErrorView::NotFound)
    }

    /// Return an account id given an entity field and its value.
    fn get_account_id_by_field(&self, ef: &EntityField, value: &str) -> (r: Result<String, Error>)
        ensures
            match self.id_lookup(ef@, value@) {
                Ok(id) => r matches Ok(s) && s@ == id,
                Err(e) => r matches Err(err) && err@ == e,
            },
    ;

    /// Return the account with the given id, including all additional fields.
    fn get_account(&self, id: &str, additional_fields: Vec<EntityField>) -> (r: Result<
        Account,
        Error,
    >)
        ensures
            match self.account_fetch(id@, additional_fields.deep_view()) {
                Ok(acc) => r == Ok::<Account, Error>(acc),
                Err(e) => r matches Err(err) && err@ == e,
            },
    ;
}

/// Parsing is stable under rendering: a successfully parsed qualified field,
/// rendered back to its "Kind.field" form, parses to the same value.
pub proof fn lemma_parse_round_trip(s: Seq<char>, fv: FieldView)
    requires
        spec_parse_entity_field(s) == Ok::<FieldView, Seq<char>>(fv),
    ensures
        spec_parse_entity_field(spec_field_string(fv)) == Ok::<FieldView, Seq<char>>(fv),
{
    let i = choose|i: int| splits_at(s, i);
    assert(splits_at(s, i));
    lemma_entity_name_round_trip(fv.entity);
    reveal_strlit(".");
    let ne = spec_entity_name(fv.entity);
    let t = spec_field_string(fv);
    assert(t[ne.len() as int] == '.');
    assert(t.subrange(0, ne.len() as int) =~= ne);
    assert(t.subrange(ne.len() as int + 1, t.len() as int) =~= fv.name);
    assert(fv.name =~= s.subrange(i + 1, s.len() as int));
    assert(splits_at(t, ne.len() as int));
    let k = choose|k: int| splits_at(t, k);
    lemma_splits_at_unique(t, k, ne.len() as int);
    assert(spec_entity_from_name(t.subrange(0, k)) == Some(fv.entity));
    assert(FieldView { entity: fv.entity, name: t.subrange(k + 1, t.len() as int) } == fv);
}

} // verus!
