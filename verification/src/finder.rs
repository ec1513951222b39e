//! The resolution cascade and the orchestrator: classify a raw query string,
//! try lookup strategies in a fixed priority order with first success
//! winning, then fetch the hydrated account for the resolved id.

use crate::config::Config;
use crate::error::Error;
use crate::sf;
use crate::sf::{Account, Client, Entity, EntityField, ErrorView, FieldView};
use crate::text;
use vstd::prelude::*;

verus! {

/// What resolving a query string to an account id came to: an id, nothing
/// (every strategy fell through), or a terminal backend failure with its
/// message.
pub enum Resolution {
    Found(Seq<char>),
    Missing,
    Failed(Seq<char>),
}

/// The id-pattern phase: when the query string has the shape of a known
/// record id, ask for the account id that record resolves to. A `NotFound`
/// answer falls through; any other failure is terminal. A string without an
/// id shape falls through without consulting the client at all.
pub open spec fn spec_from_id<C: Client>(client: &C, q: Seq<char>) -> Resolution {
    match sf::spec_entity_from_id(q) {
        Some(e) => match client.id_lookup(FieldView { entity: e, name: "Id"@ }, q) {
            Ok(id) => Resolution::Found(id),
            Err(ErrorView::NotFound) => Resolution::Missing,
            Err(ErrorView::Message(m)) => Resolution::Failed(m),
        },
        None => Resolution::Missing,
    }
}

/// The configured-field phase: try each search field in configuration
/// order; the first non-`NotFound` answer, success or failure, ends the
/// phase. An exhausted (or empty) list reports nothing found.
pub open spec fn spec_search_phase<C: Client>(
    client: &C,
    q: Seq<char>,
    fields: Seq<FieldView>,
) -> Resolution
    decreases fields.len(),
{
    if fields.len() == 0 {
        Resolution::Missing
    } else {
        match client.id_lookup(fields[0], q) {
            Ok(id) => Resolution::Found(id),
            Err(ErrorView::NotFound) => spec_search_phase(client, q, fields.drop_first()),
            Err(ErrorView::Message(m)) => Resolution::Failed(m),
        }
    }
}

/// The fallback path: a query containing `@` is first tried as a contact
/// email, with `NotFound` falling through to the configured fields; any
/// other query goes to the configured fields directly.
pub open spec fn spec_from_extra<C: Client>(
    client: &C,
    q: Seq<char>,
    fields: Seq<FieldView>,
) -> Resolution {
    if text::spec_contains_char(q, '@') {
        match client.id_lookup(FieldView { entity: Entity::Contact, name: "email"@ }, q) {
            Ok(id) => Resolution::Found(id),
            Err(ErrorView::NotFound) => spec_search_phase(client, q, fields),
            Err(ErrorView::Message(m)) => Resolution::Failed(m),
        }
    } else {
        spec_search_phase(client, q, fields)
    }
}

/// The whole cascade: the id-pattern phase first, then the fallback path
/// when it falls through.
pub open spec fn spec_cascade<C: Client>(
    client: &C,
    q: Seq<char>,
    fields: Seq<FieldView>,
) -> Resolution {
    match spec_from_id(client, q) {
        Resolution::Found(id) => Resolution::Found(id),
        Resolution::Failed(m) => Resolution::Failed(m),
        Resolution::Missing => spec_from_extra(client, q, fields),
    }
}

/// The single user-facing message for a query nothing matched.
pub open spec fn spec_not_found_message(q: Seq<char>) -> Seq<char> {
    text::spec_quoted("nothing found for query "@, q)
}

/// The outcome of one resolution phase.
enum IdOutcome {
    Resolved(String),
    Fatal(Error),
    Unresolved,
}

/// Run the id-pattern phase against the client.
fn from_id<C: Client>(client: &C, id: &str) -> (r: IdOutcome)
    ensures
        match spec_from_id(client, id@) {
            Resolution::Found(s) => r matches IdOutcome::Resolved(x) && x@ == s,
            Resolution::Missing => r matches IdOutcome::Unresolved,
            Resolution::Failed(m) => r matches IdOutcome::Fatal(e) && e.message@ == m,
        },
{
    if let Some(entity) = Entity::from_id(id) {
        let ef = entity.to_field("Id");
        match client.get_account_id_by_field(&ef, id) {
            Ok(aid) => IdOutcome::Resolved(aid),
            Err(sf::Error::NotFound) => IdOutcome::Unresolved,
            Err(err) => IdOutcome::Fatal(Error::from(err)),
        }
    } else {
        IdOutcome::Unresolved
    }
}

/// Run the fallback path against the client: the email try, then the
/// configured search fields in order.
fn from_extra<C: Client>(client: &C, q: &str, search_fields: &Vec<EntityField>) -> (r: IdOutcome)
    ensures
        match spec_from_extra(client, q@, search_fields.deep_view()) {
            Resolution::Found(s) => r matches IdOutcome::Resolved(x) && x@ == s,
            Resolution::Missing => r matches IdOutcome::Unresolved,
            Resolution::Failed(m) => r matches IdOutcome::Fatal(e) && e.message@ == m,
        },
{
    let ghost dv = search_fields.deep_view();
    if text::contains_char(q, '@') {
        let ef = Entity::Contact.to_field("email");
        match client.get_account_id_by_field(&ef, q) {
            Ok(aid) => {
                return IdOutcome::Resolved(aid);
            },
            Err(sf::Error::NotFound) => {},
            Err(err) => {
                return IdOutcome::Fatal(Error::from(err));
            },
        }
    }
    proof {
        assert(dv.subrange(0, dv.len() as int) =~= dv);
    }
    let mut i: usize = 0;
    while i < search_fields.len()
        invariant
            search_fields.deep_view() == dv,
            dv.len() == search_fields@.len(),
            i <= search_fields@.len(),
            spec_from_extra(client, q@, dv) == spec_search_phase(
                client,
                q@,
                dv.subrange(i as int, dv.len() as int),
            ),
        decreases search_fields@.len() - i,
    {
        let ef = &search_fields[i];
        proof {
            let rest = dv.subrange(i as int, dv.len() as int);
            assert(rest.len() > 0);
            assert(rest[0] == dv[i as int]);
            assert(ef@ == dv[i as int]);
        }
        match client.get_account_id_by_field(ef, q) {
            Ok(aid) => {
                return IdOutcome::Resolved(aid);
            },
            Err(sf::Error::NotFound) => {},
            Err(err) => {
                return IdOutcome::Fatal(Error::from(err));
            },
        }
        proof {
            let rest = dv.subrange(i as int, dv.len() as int);
            assert(rest.drop_first() =~= dv.subrange(i + 1, dv.len() as int));
        }
        i = i + 1;
    }
    IdOutcome::Unresolved
}

/// Build the "nothing found" error for a query.
fn not_found_error(q: &str) -> (r: Error)
    ensures
        r.message@ == spec_not_found_message(q@),
{
    Error { message: text::quoted("nothing found for query ", q) }
}

/// Find an account based on the given query. The cascade resolves the query
/// to an account id; the resolved account is then fetched with the
/// configured additional fields. Both an exhausted cascade and a `NotFound`
/// on the final fetch surface as the single "nothing found" outcome; any
/// other backend failure is surfaced verbatim.
pub fn run<C: Client>(client: &C, q: &str, conf: Config) -> (r: Result<Account, Error>)
    ensures
        match spec_cascade(client, q@, conf.search_fields.deep_view()) {
            Resolution::Failed(m) => r matches Err(e) && e.message@ == m,
            Resolution::Missing => r matches Err(e) && e.message@ == spec_not_found_message(q@),
            Resolution::Found(id) => match client.account_fetch(
                id,
                conf.additional_fields.deep_view(),
            ) {
                Ok(acc) => r == Ok::<Account, Error>(acc),
                Err(ErrorView::NotFound) => r matches Err(e) && e.message@
                    == spec_not_found_message(q@),
                Err(ErrorView::Message(m)) => r matches Err(e) && e.message@ == m,
            },
        },
{
    let Config { additional_fields, search_fields } = conf;
    let id = match from_id(client, q) {
        IdOutcome::Resolved(id) => id,
        IdOutcome::Fatal(err) => {
            return Err(err);
        },
        IdOutcome::Unresolved => match from_extra(client, q, &search_fields) {
            IdOutcome::Resolved(id) => id,
            IdOutcome::Fatal(err) => {
                return Err(err);
            },
            IdOutcome::Unresolved => {
                return Err(not_found_error(q));
            },
        },
    };
    match client.get_account(id.as_str(), additional_fields) {
        Ok(acc) => Ok(acc),
        Err(sf::Error::NotFound) => Err(not_found_error(q)),
        Err(err) => Err(Error::from(err)),
    }
}

/// The id-pattern phase consults the backend only for id-shaped strings:
/// for every other string it falls through at once, whatever any client
/// would answer.
pub proof fn lemma_id_phase_needs_id_shape<C: Client>(client: &C, q: Seq<char>)
    requires
        sf::spec_entity_from_id(q) is None,
    ensures
        spec_from_id(client, q) == Resolution::Missing,
{
}

/// A successful id-pattern lookup ends the cascade: the result stands
/// whatever the email lookup would answer and whatever search fields are
/// configured, so the later phases are never consulted.
pub proof fn lemma_id_phase_short_circuit<C: Client>(
    client: &C,
    q: Seq<char>,
    fields: Seq<FieldView>,
    e: Entity,
    id: Seq<char>,
)
    requires
        sf::spec_entity_from_id(q) == Some(e),
        client.id_lookup(FieldView { entity: e, name: "Id"@ }, q) == Ok::<Seq<char>, ErrorView>(id),
    ensures
        spec_cascade(client, q, fields) == Resolution::Found(id),
{
}

/// When an email-shaped query's email lookup reports `NotFound`, the
/// cascade falls through to the configured fields, tried in configuration
/// order.
pub proof fn lemma_email_fallthrough<C: Client>(client: &C, q: Seq<char>, fields: Seq<FieldView>)
    requires
        text::spec_contains_char(q, '@'),
        client.id_lookup(FieldView { entity: Entity::Contact, name: "email"@ }, q) == Err::<
            Seq<char>,
            ErrorView,
        >(ErrorView::NotFound),
    ensures
        spec_from_extra(client, q, fields) == spec_search_phase(client, q, fields),
{
}

/// A query without `@` skips the email phase entirely: the fallback path is
/// the configured-field phase alone, whatever the client would answer for
/// an email lookup.
pub proof fn lemma_email_phase_skipped<C: Client>(client: &C, q: Seq<char>, fields: Seq<FieldView>)
    requires
        !text::spec_contains_char(q, '@'),
    ensures
        spec_from_extra(client, q, fields) == spec_search_phase(client, q, fields),
{
}

/// The configured-field phase honours the configuration order: when every
/// field before position `k` falls through with `NotFound` and the field at
/// `k` resolves, the phase reports that resolution, whatever stands after
/// `k`.
pub proof fn lemma_search_order<C: Client>(
    client: &C,
    q: Seq<char>,
    fields: Seq<FieldView>,
    k: int,
    id: Seq<char>,
)
    requires
        0 <= k < fields.len(),
        forall|j: int|
            0 <= j < k ==> client.id_lookup(#[trigger] fields[j], q) == Err::<Seq<char>, ErrorView>(
                ErrorView::NotFound,
            ),
        client.id_lookup(fields[k], q) == Ok::<Seq<char>, ErrorView>(id),
    ensures
        spec_search_phase(client, q, fields) == Resolution::Found(id),
    decreases k,
{
    if k > 0 {
        lemma_search_order(client, q, fields.drop_first(), k - 1, id);
    }
}

/// When every configured field falls through with `NotFound`, the phase (and
/// with it an exhausted cascade) reports nothing found.
pub proof fn lemma_search_exhausted<C: Client>(client: &C, q: Seq<char>, fields: Seq<FieldView>)
    requires
        forall|j: int|
            0 <= j < fields.len() ==> client.id_lookup(#[trigger] fields[j], q) == Err::<
                Seq<char>,
                ErrorView,
            >(ErrorView::NotFound),
    ensures
        spec_search_phase(client, q, fields) == Resolution::Missing,
    decreases fields.len(),
{
    if fields.len() > 0 {
        lemma_search_exhausted(client, q, fields.drop_first());
    }
}

/// A query with no id shape, no `@`, and no configured search fields
/// reports nothing found without consulting the client at all.
pub proof fn lemma_nothing_to_try<C: Client>(client: &C, q: Seq<char>, fields: Seq<FieldView>)
    requires
        sf::spec_entity_from_id(q) is None,
        !text::spec_contains_char(q, '@'),
        fields.len() == 0,
    ensures
        spec_cascade(client, q, fields) == Resolution::Missing,
{
}

} // verus!
