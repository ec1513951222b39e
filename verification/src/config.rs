//! The search configuration: the extension fields appended to every
//! composite read, and the fields tried as fallback lookup predicates.

use crate::error::Error;
use crate::sf;
use crate::sf::{EntityField, FieldView};
use vstd::prelude::*;

verus! {

/// The app configuration.
#[derive(Debug)]
pub struct Config {
    /// Additional fields that must be included in the output.
    pub additional_fields: Vec<EntityField>,
    /// Fields that must be used when searching (values must be strings).
    pub search_fields: Vec<EntityField>,
}

/// The raw configuration: two lists of "Kind.field" strings, as they stand
/// in the persisted configuration file.
#[derive(Debug)]
pub struct FileConf {
    pub fields: Vec<String>,
    pub search: Vec<String>,
}

/// Parse every entry of `xs` from position `i` on; the first failing entry's
/// message is the result.
pub open spec fn spec_parse_fields_from(xs: Seq<Seq<char>>, i: int) -> Result<
    Seq<FieldView>,
    Seq<char>,
>
    decreases xs.len() - i,
{
    if i < 0 || i >= xs.len() {
        Ok(Seq::empty())
    } else {
        match sf::spec_parse_entity_field(xs[i]) {
            Err(m) => Err(m),
            Ok(fv) => match spec_parse_fields_from(xs, i + 1) {
                Err(m) => Err(m),
                Ok(rest) => Ok(seq![fv] + rest),
            },
        }
    }
}

/// Parse every entry of a list of "Kind.field" strings; the first failing
/// entry's message is the result.
pub open spec fn spec_parse_fields(xs: Seq<Seq<char>>) -> Result<Seq<FieldView>, Seq<char>> {
    spec_parse_fields_from(xs, 0)
}

/// When the first `i` entries parse to `pre`, the whole list parses to `pre`
/// followed by whatever the rest parses to, and fails exactly when the rest
/// fails.
proof fn lemma_parse_fields_prefix(xs: Seq<Seq<char>>, i: int, pre: Seq<FieldView>)
    requires
        0 <= i <= xs.len(),
        pre.len() == i,
        forall|j: int|
            0 <= j < i ==> sf::spec_parse_entity_field(xs[j]) == Ok::<FieldView, Seq<char>>(
                #[trigger] pre[j],
            ),
    ensures
        spec_parse_fields(xs) == match spec_parse_fields_from(xs, i) {
            Ok(rest) => Ok::<Seq<FieldView>, Seq<char>>(pre + rest),
            Err(m) => Err::<Seq<FieldView>, Seq<char>>(m),
        },
    decreases i,
{
    if i == 0 {
        match spec_parse_fields_from(xs, 0) {
            Ok(rest) => {
                assert(pre + rest =~= rest);
            },
            Err(_) => {},
        }
    } else {
        lemma_parse_fields_prefix(xs, i - 1, pre.drop_last());
        assert(sf::spec_parse_entity_field(xs[i - 1]) == Ok::<FieldView, Seq<char>>(pre[i - 1]));
        match spec_parse_fields_from(xs, i) {
            Ok(rest) => {
                assert(spec_parse_fields_from(xs, i - 1) == Ok::<Seq<FieldView>, Seq<char>>(
                    seq![pre[i - 1]] + rest,
                ));
                assert(pre.drop_last() + (seq![pre[i - 1]] + rest) =~= pre + rest);
            },
            Err(m) => {
                assert(spec_parse_fields_from(xs, i - 1) == Err::<Seq<FieldView>, Seq<char>>(m));
            },
        }
    }
}

/// Parse a list of "Kind.field" strings into qualified fields, keeping the
/// order; the first failing entry wins.
fn parse_fields(xs: &Vec<String>) -> (r: Result<Vec<EntityField>, sf::Error>)
    ensures
        match spec_parse_fields(xs.deep_view()) {
            Ok(fvs) => r matches Ok(v) && v.deep_view() == fvs,
            Err(m) => r matches Err(e) && e@ == sf::ErrorView::Message(m),
        },
{
    let ghost xv = xs.deep_view();
    let mut out: Vec<EntityField> = Vec::new();
    let mut i: usize = 0;
    while i < xs.len()
        invariant
            xs.deep_view() == xv,
            xv.len() == xs@.len(),
            i <= xs@.len(),
            out.deep_view().len() == i,
            forall|j: int|
                0 <= j < i ==> sf::spec_parse_entity_field(xv[j]) == Ok::<FieldView, Seq<char>>(
                    #[trigger] out.deep_view()[j],
                ),
        decreases xs@.len() - i,
    {
        let ghost out0 = out.deep_view();
        match EntityField::from_str(xs[i].as_str()) {
            Ok(ef) => {
                out.push(ef);
                proof {
                    assert(out.deep_view() =~= out0.push(ef@));
                }
            },
            Err(e) => {
                proof {
                    lemma_parse_fields_prefix(xv, i as int, out.deep_view());
                }
                return Err(e);
            },
        }
        i = i + 1;
    }
    proof {
        lemma_parse_fields_prefix(xv, xv.len() as int, out.deep_view());
        assert(out.deep_view() + Seq::<FieldView>::empty() =~= out.deep_view());
    }
    Ok(out)
}

/// How a parsed configuration relates to its raw form: the `fields` list is
/// checked first, the first failing entry of either list is the reported
/// error, and on success both parsed lists keep their order.
pub open spec fn spec_config_outcome(
    fields: Seq<Seq<char>>,
    search: Seq<Seq<char>>,
    r: Result<Config, Error>,
) -> bool {
    match spec_parse_fields(fields) {
        Err(m) => r matches Err(e) && e.message@ == m,
        Ok(af) => match spec_parse_fields(search) {
            Err(m) => r matches Err(e) && e.message@ == m,
            Ok(sv) => r matches Ok(c) && c.additional_fields.deep_view() == af
                && c.search_fields.deep_view() == sv,
        },
    }
}

impl FileConf {
    /// An empty configuration.
    pub fn empty() -> (r: FileConf)
        ensures
            r.fields@.len() == 0,
            r.search@.len() == 0,
    {
        FileConf { fields: Vec::new(), search: Vec::new() }
    }

    /// Parse both lists into a `Config`. The `fields` list is checked first,
    /// and the first failing entry of either list is the reported error.
    pub fn to_config(&self) -> (r: Result<Config, Error>)
        ensures
            spec_config_outcome(self.fields.deep_view(), self.search.deep_view(), r),
    {
        let additional_fields = match parse_fields(&self.fields) {
            Ok(v) => v,
            Err(e) => {
                return Err(Error::from(e));
            },
        };
        let search_fields = match parse_fields(&self.search) {
            Ok(v) => v,
            Err(e) => {
                return Err(Error::from(e));
            },
        };
        Ok(Config { additional_fields, search_fields })
    }
}

impl Config {
    /// Build the configuration from the raw file form, or from the empty
    /// form when no configuration file could be read.
    pub fn parse(file: Option<FileConf>) -> (r: Result<Config, Error>)
        ensures
            match file {
                Some(f) => spec_config_outcome(f.fields.deep_view(), f.search.deep_view(), r),
                None => r matches Ok(c) && c.additional_fields@.len() == 0
                    && c.search_fields@.len() == 0,
            },
    {
        match file {
            Some(f) => f.to_config(),
            None => {
                proof {
                    assert(file is None);
                }
                let empty = FileConf::empty();
                proof {
                    assert(empty.fields.deep_view() =~= Seq::<Seq<char>>::empty());
                    assert(empty.search.deep_view() =~= Seq::<Seq<char>>::empty());
                }
                let r = empty.to_config();
                proof {
                    assert(spec_parse_fields(empty.fields.deep_view()) == Ok::<
                        Seq<FieldView>,
                        Seq<char>,
                    >(Seq::empty()));
                    assert(spec_parse_fields(empty.search.deep_view()) == Ok::<
                        Seq<FieldView>,
                        Seq<char>,
                    >(Seq::empty()));
                    assert(r is Ok);
                    let c = r->Ok_0;
                    assert(c.additional_fields.deep_view().len() == c.additional_fields@.len());
                    assert(c.search_fields.deep_view().len() == c.search_fields@.len());
                }
                r
            },
        }
    }
}

} // verus!
