//! The query builder: the text of the composite read, of the per-opportunity
//! line-item queries, and of the id-resolution lookups.
//!
//! Every query is assembled from a fixed per-kind base field list plus the
//! caller's extension fields, in configuration order and without
//! de-duplication. Values interpolated into a query are escaped so that an
//! embedded quote or backslash cannot change the query's shape.

use crate::sf::{Entity, EntityField, FieldView, spec_entity_name};
use crate::text;
use vstd::prelude::*;
use vstd::string::StrSliceExecFns;
use vstd::string::StringExecFns;

verus! {

/// The parts joined with the separator between consecutive parts.
pub open spec fn spec_join(parts: Seq<Seq<char>>, sep: Seq<char>) -> Seq<char>
    decreases parts.len(),
{
    if parts.len() == 0 {
        Seq::empty()
    } else if parts.len() == 1 {
        parts[0]
    } else {
        parts[0] + sep + spec_join(parts.drop_first(), sep)
    }
}

/// Joining one more part appends a separator and the part (or is the part
/// itself when nothing was joined yet).
proof fn lemma_join_push(parts: Seq<Seq<char>>, x: Seq<char>, sep: Seq<char>)
    ensures
        spec_join(parts.push(x), sep) == if parts.len() == 0 {
            x
        } else {
            spec_join(parts, sep) + sep + x
        },
    decreases parts.len(),
{
    reveal_with_fuel(spec_join, 3);
    if parts.len() == 0 {
        assert(parts.push(x)[0] == x);
    } else if parts.len() == 1 {
        assert(parts.push(x).drop_first() =~= parts.drop_first().push(x));
        assert(parts.push(x).drop_first() =~= seq![x]);
        assert(spec_join(parts.push(x), sep) == parts[0] + sep + x);
    } else {
        lemma_join_push(parts.drop_first(), x, sep);
        assert(parts.push(x).drop_first() =~= parts.drop_first().push(x));
        assert((parts[0] + sep + (spec_join(parts.drop_first(), sep) + sep + x)) =~= (parts[0] + sep
            + spec_join(parts.drop_first(), sep) + sep + x));
    }
}

/// Join the parts with the separator between consecutive parts.
pub fn join(parts: &Vec<String>, sep: &str) -> (r: String)
    ensures
        r@ == spec_join(parts.deep_view(), sep@),
{
    let ghost dv = parts.deep_view();
    let mut out = String::new();
    let mut i: usize = 0;
    while i < parts.len()
        invariant
            parts.deep_view() == dv,
            dv.len() == parts@.len(),
            i <= parts@.len(),
            out@ == spec_join(dv.subrange(0, i as int), sep@),
        decreases parts@.len() - i,
    {
        if i > 0 {
            out.append(sep);
        }
        out.append(parts[i].as_str());
        proof {
            let pre = dv.subrange(0, i as int);
            assert(dv.subrange(0, i + 1) =~= pre.push(dv[i as int]));
            lemma_join_push(pre, dv[i as int], sep@);
            if i == 0 {
                assert(out@ =~= dv[0]);
            }
        }
        i = i + 1;
    }
    proof {
        assert(dv.subrange(0, dv.len() as int) =~= dv);
    }
    out
}

/// How one character is written inside a quoted query value: a quote or a
/// backslash gets a backslash escape, anything else stands as itself.
pub open spec fn spec_escape_char(c: char) -> Seq<char> {
    if c == '\'' || c == '\\' {
        seq!['\\', c]
    } else {
        seq![c]
    }
}

/// A value as written inside single quotes in a query.
pub open spec fn spec_escaped(s: Seq<char>) -> Seq<char>
    decreases s.len(),
{
    if s.len() == 0 {
        Seq::empty()
    } else {
        spec_escape_char(s[0]) + spec_escaped(s.drop_first())
    }
}

/// Escaping one more character appends that character's escape.
proof fn lemma_escaped_push(s: Seq<char>, c: char)
    ensures
        spec_escaped(s.push(c)) == spec_escaped(s) + spec_escape_char(c),
    decreases s.len(),
{
    reveal_with_fuel(spec_escaped, 3);
    if s.len() == 0 {
        assert(s.push(c).drop_first() =~= Seq::<char>::empty());
        assert(s.push(c)[0] == c);
        assert(spec_escape_char(c) + spec_escaped(Seq::<char>::empty()) =~= spec_escape_char(c));
        assert(spec_escaped(s) + spec_escape_char(c) =~= spec_escape_char(c));
    } else {
        lemma_escaped_push(s.drop_first(), c);
        assert(s.push(c).drop_first() =~= s.drop_first().push(c));
        assert(s.push(c)[0] == s[0]);
        assert((spec_escape_char(s[0]) + (spec_escaped(s.drop_first()) + spec_escape_char(c))) =~= (
        spec_escape_char(s[0]) + spec_escaped(s.drop_first()) + spec_escape_char(c)));
    }
}

/// Escape a value for interpolation between single quotes in a query.
pub fn escape_value(s: &str) -> (r: String)
    ensures
        r@ == spec_escaped(s@),
{
    let len = s.unicode_len();
    let mut out = String::new();
    proof {
        assert(s@.subrange(0, 0) =~= Seq::<char>::empty());
    }
    let mut i: usize = 0;
    while i < len
        invariant
            i <= len,
            len == s@.len(),
            out@ == spec_escaped(s@.subrange(0, i as int)),
        decreases len - i,
    {
        let ghost out0 = out@;
        let c = s.get_char(i);
        if c == '\'' || c == '\\' {
            out.append("\\");
        }
        let piece = s.substring_char(i, i + 1);
        out.append(piece);
        proof {
            reveal_strlit("\\");
            assert(piece@ =~= seq![c]);
            assert(s@.subrange(0, i + 1) =~= s@.subrange(0, i as int).push(c));
            lemma_escaped_push(s@.subrange(0, i as int), c);
            if c == '\'' || c == '\\' {
                assert(spec_escape_char(c) =~= "\\"@ + piece@);
            }
            assert(out@ =~= out0 + spec_escape_char(c));
        }
        i = i + 1;
    }
    proof {
        assert(s@.subrange(0, len as int) =~= s@);
    }
    out
}

/// The fixed base field list selected for each entity kind.
pub open spec fn spec_base_fields(e: Entity) -> Seq<Seq<char>> {
    match e {
        Entity::Account => seq![
            "Id"@,
            "Name"@,
            "AccountNumber"@,
            "BillingAddress"@,
            "CreatedDate"@,
            "LastModifiedDate"@,
        ],
        Entity::Asset => seq![
            "Id"@,
            "Name"@,
            "Product2.ProductCode"@,
            "Product2.Name"@,
            "Product2.LastModifiedDate"@,
            "Price"@,
            "Quantity"@,
            "Status"@,
            "ContactId"@,
            "InstallDate"@,
            "PurchaseDate"@,
            "UsageEndDate"@,
            "CreatedDate"@,
            "LastModifiedDate"@,
        ],
        Entity::Contact => seq![
            "Id"@,
            "Email"@,
            "FirstName"@,
            "LastName"@,
            "CreatedDate"@,
            "LastModifiedDate"@,
        ],
        Entity::Opportunity => seq![
            "Id"@,
            "Name"@,
            "RecordType.Name"@,
            "StageName"@,
            "Amount"@,
            "CurrencyIsoCode"@,
            "IsWon"@,
            "IsClosed"@,
            "CloseDate"@,
            "LeadSource"@,
            "CreatedDate"@,
            "LastModifiedDate"@,
        ],
        Entity::OpportunityLineItem => seq![
            "UnitPrice"@,
            "Quantity"@,
            "TotalPrice"@,
            "CurrencyISOCode"@,
            "ServiceDate"@,
        ],
    }
}

/// The names of the extension fields that belong to one entity kind, in
/// configuration order.
pub open spec fn spec_extension_names(additional: Seq<FieldView>, e: Entity) -> Seq<Seq<char>>
    decreases additional.len(),
{
    if additional.len() == 0 {
        Seq::empty()
    } else {
        let rest = spec_extension_names(additional.drop_last(), e);
        if additional.last().entity == e {
            rest.push(additional.last().name)
        } else {
            rest
        }
    }
}

/// The field list selected for one entity kind: the fixed base fields first,
/// then every extension field of that kind, in configuration order and
/// without de-duplication.
pub open spec fn spec_kind_fields(e: Entity, additional: Seq<FieldView>) -> Seq<Seq<char>> {
    spec_base_fields(e) + spec_extension_names(additional, e)
}

/// The comma-joined field clause selected for one entity kind.
pub open spec fn spec_fields_clause(e: Entity, additional: Seq<FieldView>) -> Seq<char> {
    spec_join(spec_kind_fields(e, additional), ", "@)
}

/// Build the base field list of one entity kind.
fn base_fields(e: Entity) -> (r: Vec<String>)
    ensures
        r.deep_view() == spec_base_fields(e),
{
    let mut v: Vec<String> = Vec::new();
    match e {
        Entity::Account => {
            v.push("Id".to_owned());
            v.push("Name".to_owned());
            v.push("AccountNumber".to_owned());
            v.push("BillingAddress".to_owned());
            v.push("CreatedDate".to_owned());
            v.push("LastModifiedDate".to_owned());
        },
        Entity::Asset => {
            v.push("Id".to_owned());
            v.push("Name".to_owned());
            v.push("Product2.ProductCode".to_owned());
            v.push("Product2.Name".to_owned());
            v.push("Product2.LastModifiedDate".to_owned());
            v.push("Price".to_owned());
            v.push("Quantity".to_owned());
            v.push("Status".to_owned());
            v.push("ContactId".to_owned());
            v.push("InstallDate".to_owned());
            v.push("PurchaseDate".to_owned());
            v.push("UsageEndDate".to_owned());
            v.push("CreatedDate".to_owned());
            v.push("LastModifiedDate".to_owned());
        },
        Entity::Contact => {
            v.push("Id".to_owned());
            v.push("Email".to_owned());
            v.push("FirstName".to_owned());
            v.push("LastName".to_owned());
            v.push("CreatedDate".to_owned());
            v.push("LastModifiedDate".to_owned());
        },
        Entity::Opportunity => {
            v.push("Id".to_owned());
            v.push("Name".to_owned());
            v.push("RecordType.Name".to_owned());
            v.push("StageName".to_owned());
            v.push("Amount".to_owned());
            v.push("CurrencyIsoCode".to_owned());
            v.push("IsWon".to_owned());
            v.push("IsClosed".to_owned());
            v.push("CloseDate".to_owned());
            v.push("LeadSource".to_owned());
            v.push("CreatedDate".to_owned());
            v.push("LastModifiedDate".to_owned());
        },
        Entity::OpportunityLineItem => {
            v.push("UnitPrice".to_owned());
            v.push("Quantity".to_owned());
            v.push("TotalPrice".to_owned());
            v.push("CurrencyISOCode".to_owned());
            v.push("ServiceDate".to_owned());
        },
    }
    proof {
        assert(v.deep_view() =~= spec_base_fields(e));
    }
    v
}

/// Build the comma-joined field clause of one entity kind, extension fields
/// included.
fn fields_clause(e: Entity, additional: &Vec<EntityField>) -> (r: String)
    ensures
        r@ == spec_fields_clause(e, additional.deep_view()),
{
    let ghost add = additional.deep_view();
    let mut v = base_fields(e);
    proof {
        assert(add.subrange(0, 0) =~= Seq::<FieldView>::empty());
        assert(spec_kind_fields(e, add.subrange(0, 0)) =~= spec_base_fields(e));
    }
    let mut i: usize = 0;
    while i < additional.len()
        invariant
            additional.deep_view() == add,
            add.len() == additional@.len(),
            i <= additional@.len(),
            v.deep_view() == spec_kind_fields(e, add.subrange(0, i as int)),
        decreases additional@.len() - i,
    {
        let ghost v0 = v.deep_view();
        let ef = &additional[i];
        if ef.entity == e {
            v.push(ef.field.clone());
        }
        proof {
            let pre = add.subrange(0, i as int);
            let now = add.subrange(0, i + 1);
            assert(now.drop_last() =~= pre);
            assert(now.last() == add[i as int]);
            if add[i as int].entity == e {
                assert(v.deep_view() =~= v0.push(add[i as int].name));
                assert(spec_extension_names(now, e) == spec_extension_names(pre, e).push(
                    add[i as int].name,
                ));
                assert(spec_kind_fields(e, now) =~= spec_kind_fields(e, pre).push(
                    add[i as int].name,
                ));
            } else {
                assert(spec_extension_names(now, e) == spec_extension_names(pre, e));
                assert(spec_kind_fields(e, now) =~= spec_kind_fields(e, pre));
            }
        }
        i = i + 1;
    }
    proof {
        assert(add.subrange(0, add.len() as int) =~= add);
    }
    join(&v, ", ")
}

/// The text of the composite read for the given root id: the account's
/// fields plus one nested sub-select per child kind, scoped to the account.
pub open spec fn spec_composite_query(id: Seq<char>, additional: Seq<FieldView>) -> Seq<char> {
    "SELECT "@ + spec_fields_clause(Entity::Account, additional) + ", (SELECT "@
        + spec_fields_clause(Entity::Asset, additional) + " FROM assets), (SELECT "@
        + spec_fields_clause(Entity::Contact, additional) + " FROM contacts), (SELECT "@
        + spec_fields_clause(Entity::Opportunity, additional)
        + " FROM opportunities) FROM Account WHERE Id = '"@ + spec_escaped(id) + "'"@
}

/// Build the text of the composite read for the given root id.
pub fn composite_query(id: &str, additional: &Vec<EntityField>) -> (r: String)
    ensures
        r@ == spec_composite_query(id@, additional.deep_view()),
{
    let mut q = "SELECT ".to_owned();
    let part = fields_clause(Entity::Account, additional);
    q.append(part.as_str());
    q.append(", (SELECT ");
    let part = fields_clause(Entity::Asset, additional);
    q.append(part.as_str());
    q.append(" FROM assets), (SELECT ");
    let part = fields_clause(Entity::Contact, additional);
    q.append(part.as_str());
    q.append(" FROM contacts), (SELECT ");
    let part = fields_clause(Entity::Opportunity, additional);
    q.append(part.as_str());
    q.append(" FROM opportunities) FROM Account WHERE Id = '");
    let esc = escape_value(id);
    q.append(esc.as_str());
    q.append("'");
    q
}

/// The text of the flat line-item query for one opportunity: the backend
/// nests only one level, so line items are fetched by a second pass, one
/// query per opportunity of the resolved account.
pub open spec fn spec_line_item_query(opportunity_id: Seq<char>, additional: Seq<FieldView>) -> Seq<
    char,
> {
    "SELECT "@ + spec_fields_clause(Entity::OpportunityLineItem, additional)
        + " FROM OpportunityLineItem WHERE OpportunityId = '"@ + spec_escaped(opportunity_id)
        + "'"@
}

/// Build the text of the flat line-item query for one opportunity.
pub fn line_item_query(opportunity_id: &str, additional: &Vec<EntityField>) -> (r: String)
    ensures
        r@ == spec_line_item_query(opportunity_id@, additional.deep_view()),
{
    let mut q = "SELECT ".to_owned();
    let part = fields_clause(Entity::OpportunityLineItem, additional);
    q.append(part.as_str());
    q.append(" FROM OpportunityLineItem WHERE OpportunityId = '");
    let esc = escape_value(opportunity_id);
    q.append(esc.as_str());
    q.append("'");
    q
}

/// How an id lookup for one field/value pair is answered.
pub enum LookupPlan {
    /// The field is the root kind's own id: the value already is the answer,
    /// and no query is issued at all.
    UseValue,
    /// Query the root kind itself and read the `Id` column of the first row.
    AccountQuery(String),
    /// Query a child kind and read the `AccountId` column of the first row.
    ChildQuery(String),
}

/// The mathematical value of a [`LookupPlan`].
pub enum LookupPlanView {
    UseValue,
    AccountQuery(Seq<char>),
    ChildQuery(Seq<char>),
}

impl View for LookupPlan {
    type V = LookupPlanView;

    open spec fn view(&self) -> LookupPlanView {
        match self {
            LookupPlan::UseValue => LookupPlanView::UseValue,
            LookupPlan::AccountQuery(q) => LookupPlanView::AccountQuery(q@),
            LookupPlan::ChildQuery(q) => LookupPlanView::ChildQuery(q@),
        }
    }
}

/// The text of a flat id-resolution query: select the resolving column,
/// filter by the field's value, and order by recency so that the first row
/// is the most recently modified match.
pub open spec fn spec_lookup_query(col: Seq<char>, f: FieldView, value: Seq<char>) -> Seq<char> {
    "SELECT "@ + col + " FROM "@ + spec_entity_name(f.entity) + " WHERE "@ + f.name + " = '"@
        + spec_escaped(value) + "' ORDER BY LastModifiedDate DESC"@
}

/// How the lookup for one field/value pair proceeds: the root id short
/// circuit, a root-kind query, or a child-kind query.
pub open spec fn spec_lookup_plan(f: FieldView, value: Seq<char>) -> LookupPlanView {
    if f.entity == Entity::Account && f.name == "Id"@ {
        LookupPlanView::UseValue
    } else if f.entity == Entity::Account {
        LookupPlanView::AccountQuery(spec_lookup_query("Id"@, f, value))
    } else {
        LookupPlanView::ChildQuery(spec_lookup_query("AccountId"@, f, value))
    }
}

/// Build one flat id-resolution query.
fn lookup_query(col: &str, ef: &EntityField, value: &str) -> (r: String)
    ensures
        r@ == spec_lookup_query(col@, ef@, value@),
{
    let mut q = "SELECT ".to_owned();
    q.append(col);
    q.append(" FROM ");
    let name = ef.entity.name();
    q.append(name.as_str());
    q.append(" WHERE ");
    q.append(ef.field.as_str());
    q.append(" = '");
    let esc = escape_value(value);
    q.append(esc.as_str());
    q.append("' ORDER BY LastModifiedDate DESC");
    q
}

/// Plan the id lookup for one field/value pair.
pub fn lookup_plan(ef: &EntityField, value: &str) -> (r: LookupPlan)
    ensures
        r@ == spec_lookup_plan(ef@, value@),
{
    match ef.entity {
        Entity::Account => {
            if text::str_eq(ef.field.as_str(), "Id") {
                LookupPlan::UseValue
            } else {
                LookupPlan::AccountQuery(lookup_query("Id", ef, value))
            }
        },
        _ => LookupPlan::ChildQuery(lookup_query("AccountId", ef, value)),
    }
}

} // verus!
