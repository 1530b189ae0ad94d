use vstd::prelude::*;
use vstd::string::*;

use crate::text::{bool_string, bool_text, decimal, decimal_text, pairs_view};

verus! {

/// Options of a record list: paging, sort, filter and projection.
#[derive(Debug, Clone, Default)]
pub struct ListOptions {
    pub page: Option<usize>,
    pub per_page: Option<usize>,
    pub sort: Option<String>,
    pub filter: Option<String>,
    pub expand: Option<String>,
    pub fields: Option<String>,
    pub skip_total: Option<bool>,
}

/// Options of a single record view.
#[derive(Debug, Clone, Default)]
pub struct ViewOptions {
    pub expand: Option<String>,
    pub fields: Option<String>,
}

/// Options of a record creation.
#[derive(Debug, Clone, Default)]
pub struct CreateOptions {
    pub expand: Option<String>,
    pub fields: Option<String>,
}

/// Options of a record update.
#[derive(Debug, Clone, Default)]
pub struct UpdateOptions {
    pub expand: Option<String>,
    pub fields: Option<String>,
}

/// One query pair for a text option that is set, none for one that is not.
pub open spec fn text_pair(name: Seq<char>, v: Option<String>) -> Seq<(Seq<char>, Seq<char>)> {
    match v {
        Some(s) => seq![(name, s@)],
        None => Seq::empty(),
    }
}

/// One query pair, in decimal, for a number option that is set.
pub open spec fn number_pair(name: Seq<char>, v: Option<usize>) -> Seq<(Seq<char>, Seq<char>)> {
    match v {
        Some(n) => seq![(name, decimal(n as nat))],
        None => Seq::empty(),
    }
}

/// One query pair, `true` or `false`, for a flag option that is set.
pub open spec fn flag_pair(name: Seq<char>, v: Option<bool>) -> Seq<(Seq<char>, Seq<char>)> {
    match v {
        Some(b) => seq![(name, bool_text(b))],
        None => Seq::empty(),
    }
}

/// The pairs of the `expand` and `fields` options, in that order.
pub open spec fn projection_pairs(expand: Option<String>, fields: Option<String>) -> Seq<(Seq<char>, Seq<char>)> {
    text_pair("expand"@, expand) + text_pair("fields"@, fields)
}

/// The query pairs of list options: each option that is set, under its
/// camel-case name, in declaration order.
pub open spec fn list_pairs(o: ListOptions) -> Seq<(Seq<char>, Seq<char>)> {
    number_pair("page"@, o.page) + number_pair("perPage"@, o.per_page) + text_pair("sort"@, o.sort)
        + text_pair("filter"@, o.filter) + projection_pairs(o.expand, o.fields) + flag_pair(
        "skipTotal"@,
        o.skip_total,
    )
}

/// Names the text that serde_urlencoded makes of a sequence of name and
/// value pairs.
pub uninterp spec fn form_urlencoded(pairs: Seq<(Seq<char>, Seq<char>)>) -> Seq<char>;

/// Relies on `serde_urlencoded::to_string` over a sequence of string pairs:
/// `name=value` for each pair, escaped and joined by `&`, so the text is empty
/// exactly when there is no pair. Its error, which it does not raise on string
/// pairs, becomes the empty text.
#[verifier::external_body]
fn urlencode(pairs: &Vec<(String, String)>) -> (r: String)
    ensures
        r@ == form_urlencoded(pairs_view(pairs@)),
        pairs@.len() == 0 <==> r@.len() == 0,
{
    serde_urlencoded::to_string(pairs).unwrap_or_default()
}

/// `path`, followed by `?` and the query when the query is not empty.
pub open spec fn with_query(path: Seq<char>, query: Seq<char>) -> Seq<char> {
    if query.len() == 0 {
        path
    } else {
        path + "?"@ + query
    }
}

/// The encoded query of a sequence of pairs.
pub fn query_of(pairs: &Vec<(String, String)>) -> (r: String)
    ensures
        r@ == form_urlencoded(pairs_view(pairs@)),
        r@.len() == 0 <==> pairs@.len() == 0,
{
    urlencode(pairs)
}

/// Appends `?` and `query` to `path` when `query` is not empty.
pub fn append_query(path: &mut String, query: &String)
    ensures
        final(path)@ == with_query(old(path)@, query@),
{
    if !query.as_str().is_empty() {
        path.append("?");
        path.append(query.as_str());
    }
}

fn push_text(pairs: &mut Vec<(String, String)>, name: &str, v: &Option<String>)
    ensures
        pairs_view(final(pairs)@) == pairs_view(old(pairs)@) + text_pair(name@, *v),
{
    if let Some(s) = v {
        pairs.push((name.to_string(), s.clone()));
    }
    assert(pairs_view(pairs@) =~= pairs_view(old(pairs)@) + text_pair(name@, *v));
}

fn push_number(pairs: &mut Vec<(String, String)>, name: &str, v: Option<usize>)
    ensures
        pairs_view(final(pairs)@) == pairs_view(old(pairs)@) + number_pair(name@, v),
{
    if let Some(n) = v {
        pairs.push((name.to_string(), decimal_text(n)));
    }
    assert(pairs_view(pairs@) =~= pairs_view(old(pairs)@) + number_pair(name@, v));
}

fn push_flag(pairs: &mut Vec<(String, String)>, name: &str, v: Option<bool>)
    ensures
        pairs_view(final(pairs)@) == pairs_view(old(pairs)@) + flag_pair(name@, v),
{
    if let Some(b) = v {
        pairs.push((name.to_string(), bool_string(b)));
    }
    assert(pairs_view(pairs@) =~= pairs_view(old(pairs)@) + flag_pair(name@, v));
}

fn projection_query_pairs(expand: &Option<String>, fields: &Option<String>) -> (r: Vec<(String, String)>)
    ensures
        pairs_view(r@) == projection_pairs(*expand, *fields),
{
    let mut pairs: Vec<(String, String)> = Vec::new();
    assert(pairs_view(pairs@) =~= Seq::empty());
    push_text(&mut pairs, "expand", expand);
    push_text(&mut pairs, "fields", fields);
    assert(pairs_view(pairs@) =~= projection_pairs(*expand, *fields));
    pairs
}

impl ListOptions {
    /// The query pairs: each option that is set, in declaration order.
    pub fn query_pairs(&self) -> (r: Vec<(String, String)>)
        ensures
            pairs_view(r@) == list_pairs(*self),
    {
        let mut pairs: Vec<(String, String)> = Vec::new();
        assert(pairs_view(pairs@) =~= Seq::empty());
        push_number(&mut pairs, "page", self.page);
        push_number(&mut pairs, "perPage", self.per_page);
        push_text(&mut pairs, "sort", &self.sort);
        push_text(&mut pairs, "filter", &self.filter);
        push_text(&mut pairs, "expand", &self.expand);
        push_text(&mut pairs, "fields", &self.fields);
        push_flag(&mut pairs, "skipTotal", self.skip_total);
        assert(pairs_view(pairs@) =~= list_pairs(*self));
        pairs
    }

    /// The encoded query; empty when no option is set.
    pub fn query(&self) -> (r: String)
        ensures
            r@ == form_urlencoded(list_pairs(*self)),
            r@.len() == 0 <==> list_pairs(*self).len() == 0,
    {
        let pairs = self.query_pairs();
        assert(pairs_view(pairs@).len() == pairs@.len());
        query_of(&pairs)
    }
}

impl ViewOptions {
    /// The query pairs: `expand` and `fields`, where set.
    pub fn query_pairs(&self) -> (r: Vec<(String, String)>)
        ensures
            pairs_view(r@) == projection_pairs(self.expand, self.fields),
    {
        projection_query_pairs(&self.expand, &self.fields)
    }

    /// The encoded query; empty when no option is set.
    pub fn query(&self) -> (r: String)
        ensures
            r@ == form_urlencoded(projection_pairs(self.expand, self.fields)),
            r@.len() == 0 <==> (self.expand is None && self.fields is None),
    {
        let pairs = self.query_pairs();
        assert(pairs_view(pairs@).len() == pairs@.len());
        query_of(&pairs)
    }
}

impl CreateOptions {
    /// The query pairs: `expand` and `fields`, where set.
    pub fn query_pairs(&self) -> (r: Vec<(String, String)>)
        ensures
            pairs_view(r@) == projection_pairs(self.expand, self.fields),
    {
        projection_query_pairs(&self.expand, &self.fields)
    }

    /// The encoded query; empty when no option is set.
    pub fn query(&self) -> (r: String)
        ensures
            r@ == form_urlencoded(projection_pairs(self.expand, self.fields)),
            r@.len() == 0 <==> (self.expand is None && self.fields is None),
    {
        let pairs = self.query_pairs();
        assert(pairs_view(pairs@).len() == pairs@.len());
        query_of(&pairs)
    }
}

impl UpdateOptions {
    /// The query pairs: `expand` and `fields`, where set.
    pub fn query_pairs(&self) -> (r: Vec<(String, String)>)
        ensures
            pairs_view(r@) == projection_pairs(self.expand, self.fields),
    {
        projection_query_pairs(&self.expand, &self.fields)
    }

    /// The encoded query; empty when no option is set.
    pub fn query(&self) -> (r: String)
        ensures
            r@ == form_urlencoded(projection_pairs(self.expand, self.fields)),
            r@.len() == 0 <==> (self.expand is None && self.fields is None),
    {
        let pairs = self.query_pairs();
        assert(pairs_view(pairs@).len() == pairs@.len());
        query_of(&pairs)
    }
}

} // verus!
