//! The validated query-URL builder for the aggregation service: a
//! builder accumulates query intent and a finalizer emits either a
//! schema/member-lookup URL or a fully parameterized aggregate-query
//! URL, or a validation error.  Also the two-tier extraction of an
//! error message from a response body.

pub mod names;

use crate::escape::{path_escape, query_escape, spec_path_escape, spec_query_escape};
use crate::text::{
    first_two_lines, join_strings, seq_views, spec_bool_str, spec_first_two_lines, spec_join,
    str_eq,
};
use names::{
    spec_serialize_cut, spec_serialize_level, spec_serialize_property, Cut, CutV, Drilldown,
    LevelName, LevelNameV, Measure, Property, PropertyV,
};
use vstd::prelude::*;

verus! {

/// The response body format of an aggregate query.
#[derive(Debug, Clone, PartialEq, Eq, Structural)]
pub enum ResponseFormat {
    Json,
    JsonRecords,
    Csv,
}

/// The wire text of a response format.
pub open spec fn spec_format_str(f: ResponseFormat) -> Seq<char> {
    match f {
        ResponseFormat::Json => "json"@,
        ResponseFormat::JsonRecords => "jsonrecords"@,
        ResponseFormat::Csv => "csv"@,
    }
}

impl ResponseFormat {
    /// The wire text of the format.
    pub fn serialize(&self) -> (r: String)
        ensures
            r@ == spec_format_str(*self),
    {
        match self {
            ResponseFormat::Json => String::from_str("json"),
            ResponseFormat::JsonRecords => String::from_str("jsonrecords"),
            ResponseFormat::Csv => String::from_str("csv"),
        }
    }

    /// Parses the wire text of a format; exactly the three wire texts
    /// are accepted.
    pub fn parse(s: &str) -> (r: Option<ResponseFormat>)
        ensures
            s@ == "json"@ ==> r == Some(ResponseFormat::Json),
            s@ == "jsonrecords"@ ==> r == Some(ResponseFormat::JsonRecords),
            s@ == "csv"@ ==> r == Some(ResponseFormat::Csv),
            (s@ != "json"@ && s@ != "jsonrecords"@ && s@ != "csv"@) ==> r is None,
    {
        proof {
            reveal_strlit("json");
            reveal_strlit("jsonrecords");
            reveal_strlit("csv");
            assert("json"@.len() == 4);
            assert("jsonrecords"@.len() == 11);
            assert("csv"@.len() == 3);
        }
        if str_eq(s, "json") {
            Some(ResponseFormat::Json)
        } else if str_eq(s, "jsonrecords") {
            Some(ResponseFormat::JsonRecords)
        } else if str_eq(s, "csv") {
            Some(ResponseFormat::Csv)
        } else {
            None
        }
    }
}

/// A failure of the URL finalizer.
#[derive(Debug, Clone, PartialEq, Eq, Structural)]
pub enum UrlError {
    /// A members request lacks a cube name.
    MembersNeedsCube,
    /// A members request also carries query parameters.
    MembersWithQueryParams,
    /// Query parameters were set without a cube name.
    CubeRequiredForQuery,
    /// The base address is not a well-formed URL.
    BadBaseUrl,
}

/// The message text of a URL finalizer failure.
pub open spec fn spec_url_error_message(e: UrlError) -> Seq<char> {
    match e {
        UrlError::MembersNeedsCube => "Members call requires a cube name"@,
        UrlError::MembersWithQueryParams => "Members call should not include query parameters"@,
        UrlError::CubeRequiredForQuery => "Cube name is required for query"@,
        UrlError::BadBaseUrl => "Base url is not a well-formed url"@,
    }
}

impl UrlError {
    /// Renders the error for reporting.
    pub fn message(&self) -> (r: String)
        ensures
            r@ == spec_url_error_message(*self),
    {
        match self {
            UrlError::MembersNeedsCube => String::from_str("Members call requires a cube name"),
            UrlError::MembersWithQueryParams => String::from_str(
                "Members call should not include query parameters",
            ),
            UrlError::CubeRequiredForQuery => String::from_str("Cube name is required for query"),
            UrlError::BadBaseUrl => String::from_str("Base url is not a well-formed url"),
        }
    }
}

/// Whether `url::Url::parse` accepts an address; a function of the text
/// alone.
pub uninterp spec fn spec_base_url_accepted(s: Seq<char>) -> bool;

/// Relies on `url::Url::parse`: whether an absolute-URL string parses
/// is a pure function of the string.
#[verifier::external_body]
fn base_url_accepted(s: &str) -> (r: bool)
    ensures
        r == spec_base_url_accepted(s@),
{
    url::Url::parse(s).is_ok()
}

/// A string with a trailing separator appended when it is non-empty and
/// lacks one.
pub open spec fn spec_slash_norm(s: Seq<char>) -> Seq<char> {
    if s.len() > 0 && s.last() != '/' {
        s.push('/')
    } else {
        s
    }
}

/// Appends a trailing slash to a non-empty string that lacks one.
pub fn add_trailing_slash(s: &mut String)
    ensures
        final(s)@ == spec_slash_norm(old(s)@),
{
    let n = s.unicode_len();
    if n > 0 {
        if s.as_str().get_char(n - 1) != '/' {
            s.push('/');
        }
    }
}

/// Mathematical model of the accumulated builder state.
pub ghost struct QueryBuilderV {
    pub base_url: Seq<char>,
    pub cube_name: Option<Seq<char>>,
    pub members: Option<LevelNameV>,
    pub drilldowns: Seq<LevelNameV>,
    pub measures: Seq<Seq<char>>,
    pub cuts: Seq<CutV>,
    pub properties: Seq<PropertyV>,
    pub debug: bool,
    pub parents: bool,
    pub nonempty: bool,
    pub distinct: bool,
    pub sparse: bool,
    pub format: ResponseFormat,
}

/// The level names of a sequence of drilldowns.
pub open spec fn drilldown_views(s: Seq<Drilldown>) -> Seq<LevelNameV> {
    s.map_values(|d: Drilldown| d@)
}

/// The names of a sequence of measures.
pub open spec fn measure_views(s: Seq<Measure>) -> Seq<Seq<char>> {
    s.map_values(|m: Measure| m@)
}

/// The models of a sequence of cuts.
pub open spec fn cut_views(s: Seq<Cut>) -> Seq<CutV> {
    s.map_values(|c: Cut| c@)
}

/// The models of a sequence of property requests.
pub open spec fn property_views(s: Seq<Property>) -> Seq<PropertyV> {
    s.map_values(|p: Property| p@)
}

/// The state of a fresh builder bound to a base address.
pub open spec fn spec_new_builder(base_url: Seq<char>) -> QueryBuilderV {
    QueryBuilderV {
        base_url: base_url,
        cube_name: None,
        members: None,
        drilldowns: Seq::empty(),
        measures: Seq::empty(),
        cuts: Seq::empty(),
        properties: Seq::empty(),
        debug: false,
        parents: false,
        nonempty: false,
        distinct: false,
        sparse: false,
        format: ResponseFormat::Json,
    }
}

/// A mutable accumulator of query intent, consumed by the `url`
/// finalizer.
#[derive(Debug, Clone)]
pub struct QueryBuilder {
    base_url: String,
    cube_name: Option<String>,
    members: Option<LevelName>,
    drilldowns: Vec<Drilldown>,
    measures: Vec<Measure>,
    cuts: Vec<Cut>,
    properties: Vec<Property>,
    debug: bool,
    parents: bool,
    nonempty: bool,
    distinct: bool,
    sparse: bool,
    format: ResponseFormat,
}

impl View for QueryBuilder {
    type V = QueryBuilderV;

    closed spec fn view(&self) -> QueryBuilderV {
        QueryBuilderV {
            base_url: self.base_url@,
            cube_name: match self.cube_name {
                Some(c) => Some(c@),
                None => None,
            },
            members: match self.members {
                Some(m) => Some(m@),
                None => None,
            },
            drilldowns: drilldown_views(self.drilldowns@),
            measures: measure_views(self.measures@),
            cuts: cut_views(self.cuts@),
            properties: property_views(self.properties@),
            debug: self.debug,
            parents: self.parents,
            nonempty: self.nonempty,
            distinct: self.distinct,
            sparse: self.sparse,
            format: self.format,
        }
    }
}

impl Default for QueryBuilder {
    /// An empty builder bound to an empty base address.
    fn default() -> (r: Self)
        ensures
            r@ == spec_new_builder(Seq::<char>::empty()),
    {
        let r = QueryBuilder {
            base_url: String::new(),
            cube_name: None,
            members: None,
            drilldowns: Vec::new(),
            measures: Vec::new(),
            cuts: Vec::new(),
            properties: Vec::new(),
            debug: false,
            parents: false,
            nonempty: false,
            distinct: false,
            sparse: false,
            format: ResponseFormat::Json,
        };
        proof {
            assert(drilldown_views(r.drilldowns@) =~= Seq::<LevelNameV>::empty());
            assert(measure_views(r.measures@) =~= Seq::<Seq<char>>::empty());
            assert(cut_views(r.cuts@) =~= Seq::<CutV>::empty());
            assert(property_views(r.properties@) =~= Seq::<PropertyV>::empty());
        }
        r
    }
}

/// Initializer for the builder pattern: a fresh builder bound to the
/// given base address.
pub fn query(base_url: String) -> (r: QueryBuilder)
    ensures
        r@ == spec_new_builder(base_url@),
{
    let mut builder = QueryBuilder::default();
    builder.base_url = base_url;
    builder
}

impl QueryBuilder {
    /// Sets the cube the query addresses.
    pub fn cube(&mut self, cube_name: &str)
        ensures
            final(self)@ == (QueryBuilderV { cube_name: Some(cube_name@), ..old(self)@ }),
    {
        self.cube_name = Some(cube_name.to_owned());
    }

    /// Sets the level whose members are requested; members mode is
    /// exclusive with all query-shaping fields.
    pub fn members(&mut self, level_name: LevelName)
        ensures
            final(self)@ == (QueryBuilderV { members: Some(level_name@), ..old(self)@ }),
    {
        self.members = Some(level_name);
    }

    /// Appends one drilldown.
    pub fn drilldown(&mut self, drilldown: Drilldown)
        ensures
            final(self)@ == (QueryBuilderV {
                drilldowns: old(self)@.drilldowns.push(drilldown@),
                ..old(self)@
            }),
    {
        let ghost d = drilldown@;
        self.drilldowns.push(drilldown);
        proof {
            assert(drilldown_views(self.drilldowns@) =~= drilldown_views(
                old(self).drilldowns@,
            ).push(d));
        }
    }

    /// Appends drilldowns in order.
    pub fn drilldowns(&mut self, drilldowns: Vec<Drilldown>)
        ensures
            final(self)@ == (QueryBuilderV {
                drilldowns: old(self)@.drilldowns + drilldown_views(drilldowns@),
                ..old(self)@
            }),
    {
        let mut i: usize = 0;
        while i < drilldowns.len()
            invariant
                i <= drilldowns@.len(),
                drilldown_views(self.drilldowns@) =~= old(self)@.drilldowns + drilldown_views(
                    drilldowns@,
                ).take(i as int),
                self@ == (QueryBuilderV {
                    drilldowns: drilldown_views(self.drilldowns@),
                    ..old(self)@
                }),
            decreases drilldowns@.len() - i,
        {
            let ghost prev = self.drilldowns@;
            let d = drilldowns[i].clone();
            self.drilldowns.push(d);
            proof {
                let target = drilldown_views(drilldowns@);
                assert(target.take(i as int + 1) =~= target.take(i as int).push(target[i as int]));
                assert(drilldown_views(self.drilldowns@) =~= drilldown_views(prev).push(
                    target[i as int],
                ));
                assert(drilldown_views(self.drilldowns@) =~= old(self)@.drilldowns + target.take(
                    i as int + 1,
                ));
            }
            i = i + 1;
        }
        proof {
            assert(drilldown_views(drilldowns@).take(drilldowns@.len() as int) =~= drilldown_views(
                drilldowns@,
            ));
        }
    }

    /// Appends one measure.
    pub fn measure(&mut self, measure: Measure)
        ensures
            final(self)@ == (QueryBuilderV {
                measures: old(self)@.measures.push(measure@),
                ..old(self)@
            }),
    {
        let ghost m = measure@;
        self.measures.push(measure);
        proof {
            assert(measure_views(self.measures@) =~= measure_views(old(self).measures@).push(m));
        }
    }

    /// Appends measures in order.
    pub fn measures(&mut self, measures: Vec<Measure>)
        ensures
            final(self)@ == (QueryBuilderV {
                measures: old(self)@.measures + measure_views(measures@),
                ..old(self)@
            }),
    {
        let mut i: usize = 0;
        while i < measures.len()
            invariant
                i <= measures@.len(),
                measure_views(self.measures@) =~= old(self)@.measures + measure_views(
                    measures@,
                ).take(i as int),
                self@ == (QueryBuilderV { measures: measure_views(self.measures@), ..old(self)@ }),
            decreases measures@.len() - i,
        {
            let ghost prev = self.measures@;
            let m = measures[i].clone();
            self.measures.push(m);
            proof {
                let target = measure_views(measures@);
                assert(target.take(i as int + 1) =~= target.take(i as int).push(target[i as int]));
                assert(measure_views(self.measures@) =~= measure_views(prev).push(
                    target[i as int],
                ));
                assert(measure_views(self.measures@) =~= old(self)@.measures + target.take(
                    i as int + 1,
                ));
            }
            i = i + 1;
        }
        proof {
            assert(measure_views(measures@).take(measures@.len() as int) =~= measure_views(
                measures@,
            ));
        }
    }

    /// Appends one cut.
    pub fn cut(&mut self, cut: Cut)
        ensures
            final(self)@ == (QueryBuilderV { cuts: old(self)@.cuts.push(cut@), ..old(self)@ }),
    {
        let ghost c = cut@;
        self.cuts.push(cut);
        proof {
            assert(cut_views(self.cuts@) =~= cut_views(old(self).cuts@).push(c));
        }
    }

    /// Appends cuts in order.
    pub fn cuts(&mut self, cuts: Vec<Cut>)
        ensures
            final(self)@ == (QueryBuilderV {
                cuts: old(self)@.cuts + cut_views(cuts@),
                ..old(self)@
            }),
    {
        let mut i: usize = 0;
        while i < cuts.len()
            invariant
                i <= cuts@.len(),
                cut_views(self.cuts@) =~= old(self)@.cuts + cut_views(cuts@).take(i as int),
                self@ == (QueryBuilderV { cuts: cut_views(self.cuts@), ..old(self)@ }),
            decreases cuts@.len() - i,
        {
            let ghost prev = self.cuts@;
            let c = cuts[i].clone();
            self.cuts.push(c);
            proof {
                let target = cut_views(cuts@);
                assert(target.take(i as int + 1) =~= target.take(i as int).push(target[i as int]));
                assert(cut_views(self.cuts@) =~= cut_views(prev).push(target[i as int]));
                assert(cut_views(self.cuts@) =~= old(self)@.cuts + target.take(i as int + 1));
            }
            i = i + 1;
        }
        proof {
            assert(cut_views(cuts@).take(cuts@.len() as int) =~= cut_views(cuts@));
        }
    }

    /// Appends one property request.
    pub fn property(&mut self, property: Property)
        ensures
            final(self)@ == (QueryBuilderV {
                properties: old(self)@.properties.push(property@),
                ..old(self)@
            }),
    {
        let ghost p = property@;
        self.properties.push(property);
        proof {
            assert(property_views(self.properties@) =~= property_views(
                old(self).properties@,
            ).push(p));
        }
    }

    /// Appends property requests in order.
    pub fn properties(&mut self, properties: Vec<Property>)
        ensures
            final(self)@ == (QueryBuilderV {
                properties: old(self)@.properties + property_views(properties@),
                ..old(self)@
            }),
    {
        let mut i: usize = 0;
        while i < properties.len()
            invariant
                i <= properties@.len(),
                property_views(self.properties@) =~= old(self)@.properties + property_views(
                    properties@,
                ).take(i as int),
                self@ == (QueryBuilderV {
                    properties: property_views(self.properties@),
                    ..old(self)@
                }),
            decreases properties@.len() - i,
        {
            let ghost prev = self.properties@;
            let p = properties[i].clone();
            self.properties.push(p);
            proof {
                let target = property_views(properties@);
                assert(target.take(i as int + 1) =~= target.take(i as int).push(target[i as int]));
                assert(property_views(self.properties@) =~= property_views(prev).push(
                    target[i as int],
                ));
                assert(property_views(self.properties@) =~= old(self)@.properties + target.take(
                    i as int + 1,
                ));
            }
            i = i + 1;
        }
        proof {
            assert(property_views(properties@).take(properties@.len() as int) =~= property_views(
                properties@,
            ));
        }
    }

    /// Sets the debug flag.
    pub fn debug(&mut self, debug: bool)
        ensures
            final(self)@ == (QueryBuilderV { debug: debug, ..old(self)@ }),
    {
        self.debug = debug;
    }

    /// Sets the parents flag.
    pub fn parents(&mut self, parents: bool)
        ensures
            final(self)@ == (QueryBuilderV { parents: parents, ..old(self)@ }),
    {
        self.parents = parents;
    }

    /// Sets the nonempty flag.
    pub fn nonempty(&mut self, nonempty: bool)
        ensures
            final(self)@ == (QueryBuilderV { nonempty: nonempty, ..old(self)@ }),
    {
        self.nonempty = nonempty;
    }

    /// Sets the distinct flag.
    pub fn distinct(&mut self, distinct: bool)
        ensures
            final(self)@ == (QueryBuilderV { distinct: distinct, ..old(self)@ }),
    {
        self.distinct = distinct;
    }

    /// Sets the sparse flag.
    pub fn sparse(&mut self, sparse: bool)
        ensures
            final(self)@ == (QueryBuilderV { sparse: sparse, ..old(self)@ }),
    {
        self.sparse = sparse;
    }

    /// Sets the response format of an aggregate query.
    pub fn format(&mut self, format: ResponseFormat)
        ensures
            final(self)@ == (QueryBuilderV { format: format, ..old(self)@ }),
    {
        self.format = format;
    }
}

/// Whether any query-shaping field has been set.
pub open spec fn spec_has_query_params(q: QueryBuilderV) -> bool {
    q.drilldowns.len() > 0 || q.measures.len() > 0 || q.cuts.len() > 0 || q.properties.len() > 0
}

/// The member-lookup path for a cube and level, over a slash-normalized
/// base.
pub open spec fn spec_members_url(base: Seq<char>, cube: Seq<char>, m: LevelNameV) -> Seq<char> {
    base + "cubes/"@ + spec_path_escape(cube) + "/dimensions/"@ + spec_path_escape(m.dimension)
        + "/hierarchies/"@ + spec_path_escape(m.hierarchy) + "/levels/"@ + spec_path_escape(m.level)
        + "/members"@
}

/// One `key=value` query pair, both sides form-urlencoded.
pub open spec fn spec_query_pair(key: Seq<char>, val: Seq<char>) -> Seq<char> {
    spec_query_escape(key) + "="@ + spec_query_escape(val)
}

/// The query pairs of an aggregate query, in builder insertion order:
/// the repeated-key array parameters, then the five scalar flags.
pub open spec fn spec_query_pairs(q: QueryBuilderV) -> Seq<Seq<char>> {
    q.drilldowns.map_values(|d: LevelNameV| spec_query_pair("drilldown[]"@, spec_serialize_level(d)))
        + q.measures.map_values(|m: Seq<char>| spec_query_pair("measures[]"@, m))
        + q.cuts.map_values(|c: CutV| spec_query_pair("cut[]"@, spec_serialize_cut(c)))
        + q.properties.map_values(
        |p: PropertyV| spec_query_pair("properties[]"@, spec_serialize_property(p)),
    ) + seq![
        spec_query_pair("debug"@, spec_bool_str(q.debug)),
        spec_query_pair("parents"@, spec_bool_str(q.parents)),
        spec_query_pair("nonempty"@, spec_bool_str(q.nonempty)),
        spec_query_pair("distinct"@, spec_bool_str(q.distinct)),
        spec_query_pair("sparse"@, spec_bool_str(q.sparse)),
    ]
}

/// The aggregate-query URL, over a slash-normalized base; meaningful
/// when a cube name is set.
pub open spec fn spec_aggregate_url(q: QueryBuilderV) -> Seq<char> {
    spec_slash_norm(q.base_url) + "cubes/"@ + spec_path_escape(q.cube_name->0) + "/aggregate."@
        + spec_format_str(q.format) + "?"@ + spec_join(spec_query_pairs(q), "&"@)
}

/// The finalizer's result for a builder state, in validation order:
/// a members request needs a cube name and no query-shaping fields and
/// yields the member-lookup path; otherwise the base address must be a
/// well-formed URL; with a cube name, a drilldown and a measure together
/// trigger an aggregate query while anything less yields the single-cube
/// description path; without a cube name, any query-shaping field is an
/// error and none yields the catalog path.
pub open spec fn spec_url(q: QueryBuilderV) -> Result<Seq<char>, UrlError> {
    let base = spec_slash_norm(q.base_url);
    if q.members is Some {
        if q.cube_name is None {
            Err(UrlError::MembersNeedsCube)
        } else if spec_has_query_params(q) {
            Err(UrlError::MembersWithQueryParams)
        } else if !spec_base_url_accepted(base) {
            Err(UrlError::BadBaseUrl)
        } else {
            Ok(spec_members_url(base, q.cube_name->0, q.members->0))
        }
    } else if !spec_base_url_accepted(base) {
        Err(UrlError::BadBaseUrl)
    } else {
        match q.cube_name {
            Some(cube) => {
                if q.drilldowns.len() > 0 && q.measures.len() > 0 {
                    Ok(spec_aggregate_url(q))
                } else {
                    Ok(base + "cubes/"@ + spec_path_escape(cube) + "/"@)
                }
            },
            None => {
                if spec_has_query_params(q) {
                    Err(UrlError::CubeRequiredForQuery)
                } else {
                    Ok(base + "cubes/"@)
                }
            },
        }
    }
}

/// One form-urlencoded query pair.
fn query_pair(key: &str, val: &str) -> (r: String)
    ensures
        r@ == spec_query_pair(key@, val@),
{
    let mut out = query_escape(key);
    out.append("=");
    let v = query_escape(val);
    out.append(v.as_str());
    out
}

impl QueryBuilder {
    /// Whether any query-shaping field has been set.
    fn has_query_params(&self) -> (r: bool)
        ensures
            r == spec_has_query_params(self@),
    {
        !self.drilldowns.is_empty() || !self.measures.is_empty() || !self.cuts.is_empty()
            || !self.properties.is_empty()
    }

    /// The query pairs of an aggregate query, in insertion order.
    fn query_pairs(&self) -> (r: Vec<String>)
        ensures
            seq_views(r@) == spec_query_pairs(self@),
    {
        let mut pairs: Vec<String> = Vec::new();
        let ghost dd_part = self@.drilldowns.map_values(
            |d: LevelNameV| spec_query_pair("drilldown[]"@, spec_serialize_level(d)),
        );
        let mut i: usize = 0;
        while i < self.drilldowns.len()
            invariant
                i <= self.drilldowns@.len(),
                dd_part == self@.drilldowns.map_values(
                    |d: LevelNameV| spec_query_pair("drilldown[]"@, spec_serialize_level(d)),
                ),
                self@.drilldowns == drilldown_views(self.drilldowns@),
                seq_views(pairs@) =~= dd_part.take(i as int),
            decreases self.drilldowns@.len() - i,
        {
            let s = self.drilldowns[i].serialize();
            pairs.push(query_pair("drilldown[]", s.as_str()));
            proof {
                assert(dd_part.take(i as int + 1) =~= dd_part.take(i as int).push(
                    dd_part[i as int],
                ));
                assert(seq_views(pairs@) =~= dd_part.take(i as int + 1));
            }
            i = i + 1;
        }
        proof {
            assert(dd_part.take(self.drilldowns@.len() as int) =~= dd_part);
        }
        let ghost m_part = self@.measures.map_values(
            |m: Seq<char>| spec_query_pair("measures[]"@, m),
        );
        let mut i: usize = 0;
        while i < self.measures.len()
            invariant
                i <= self.measures@.len(),
                m_part == self@.measures.map_values(
                    |m: Seq<char>| spec_query_pair("measures[]"@, m),
                ),
                self@.measures == measure_views(self.measures@),
                seq_views(pairs@) =~= dd_part + m_part.take(i as int),
            decreases self.measures@.len() - i,
        {
            let ghost prev = pairs@;
            let s = self.measures[i].serialize();
            pairs.push(query_pair("measures[]", s.as_str()));
            proof {
                assert(m_part.take(i as int + 1) =~= m_part.take(i as int).push(m_part[i as int]));
                assert(seq_views(pairs@) =~= seq_views(prev).push(m_part[i as int]));
                assert(seq_views(pairs@) =~= dd_part + m_part.take(i as int + 1));
            }
            i = i + 1;
        }
        proof {
            assert(m_part.take(self.measures@.len() as int) =~= m_part);
        }
        let ghost c_part = self@.cuts.map_values(
            |c: CutV| spec_query_pair("cut[]"@, spec_serialize_cut(c)),
        );
        let mut i: usize = 0;
        while i < self.cuts.len()
            invariant
                i <= self.cuts@.len(),
                c_part == self@.cuts.map_values(
                    |c: CutV| spec_query_pair("cut[]"@, spec_serialize_cut(c)),
                ),
                self@.cuts == cut_views(self.cuts@),
                seq_views(pairs@) =~= dd_part + m_part + c_part.take(i as int),
            decreases self.cuts@.len() - i,
        {
            let ghost prev = pairs@;
            let s = self.cuts[i].serialize();
            pairs.push(query_pair("cut[]", s.as_str()));
            proof {
                assert(c_part.take(i as int + 1) =~= c_part.take(i as int).push(c_part[i as int]));
                assert(seq_views(pairs@) =~= seq_views(prev).push(c_part[i as int]));
                assert(seq_views(pairs@) =~= dd_part + m_part + c_part.take(i as int + 1));
            }
            i = i + 1;
        }
        proof {
            assert(c_part.take(self.cuts@.len() as int) =~= c_part);
        }
        let ghost p_part = self@.properties.map_values(
            |p: PropertyV| spec_query_pair("properties[]"@, spec_serialize_property(p)),
        );
        let mut i: usize = 0;
        while i < self.properties.len()
            invariant
                i <= self.properties@.len(),
                p_part == self@.properties.map_values(
                    |p: PropertyV| spec_query_pair("properties[]"@, spec_serialize_property(p)),
                ),
                self@.properties == property_views(self.properties@),
                seq_views(pairs@) =~= dd_part + m_part + c_part + p_part.take(i as int),
            decreases self.properties@.len() - i,
        {
            let ghost prev = pairs@;
            let s = self.properties[i].serialize();
            pairs.push(query_pair("properties[]", s.as_str()));
            proof {
                assert(p_part.take(i as int + 1) =~= p_part.take(i as int).push(p_part[i as int]));
                assert(seq_views(pairs@) =~= seq_views(prev).push(p_part[i as int]));
                assert(seq_views(pairs@) =~= dd_part + m_part + c_part + p_part.take(
                    i as int + 1,
                ));
            }
            i = i + 1;
        }
        proof {
            assert(p_part.take(self.properties@.len() as int) =~= p_part);
        }
        let debug = crate::text::bool_to_string(self.debug);
        pairs.push(query_pair("debug", debug.as_str()));
        let parents = crate::text::bool_to_string(self.parents);
        pairs.push(query_pair("parents", parents.as_str()));
        let nonempty = crate::text::bool_to_string(self.nonempty);
        pairs.push(query_pair("nonempty", nonempty.as_str()));
        let distinct = crate::text::bool_to_string(self.distinct);
        pairs.push(query_pair("distinct", distinct.as_str()));
        let sparse = crate::text::bool_to_string(self.sparse);
        pairs.push(query_pair("sparse", sparse.as_str()));
        proof {
            assert(seq_views(pairs@) =~= spec_query_pairs(self@));
        }
        pairs
    }

    /// The finalizer: emits the URL for the accumulated state, or the
    /// first validation failure in the order `spec_url` gives.  The
    /// finalizer is pure: calling it again on the same state returns
    /// the same result.
    pub fn url(&self) -> (r: Result<String, UrlError>)
        ensures
            spec_url(self@) matches Ok(u) ==> (r matches Ok(s) && s@ == u),
            spec_url(self@) matches Err(e) ==> r == Err::<String, UrlError>(e),
    {
        let mut base = self.base_url.clone();
        add_trailing_slash(&mut base);
        if let Some(members) = &self.members {
            let cube = match &self.cube_name {
                Some(c) => c,
                None => {
                    return Err(UrlError::MembersNeedsCube);
                },
            };
            if self.has_query_params() {
                return Err(UrlError::MembersWithQueryParams);
            }
            if !base_url_accepted(base.as_str()) {
                return Err(UrlError::BadBaseUrl);
            }
            let mut out = base;
            out.append("cubes/");
            let cube_esc = path_escape(cube.as_str());
            out.append(cube_esc.as_str());
            out.append("/dimensions/");
            let dim_esc = path_escape(members.dimension());
            out.append(dim_esc.as_str());
            out.append("/hierarchies/");
            let hier_esc = path_escape(members.hierarchy());
            out.append(hier_esc.as_str());
            out.append("/levels/");
            let lvl_esc = path_escape(members.level());
            out.append(lvl_esc.as_str());
            out.append("/members");
            return Ok(out);
        }
        if !base_url_accepted(base.as_str()) {
            return Err(UrlError::BadBaseUrl);
        }
        match &self.cube_name {
            Some(cube) => {
                if !self.drilldowns.is_empty() && !self.measures.is_empty() {
                    let pairs = self.query_pairs();
                    let mut out = base;
                    out.append("cubes/");
                    let cube_esc = path_escape(cube.as_str());
                    out.append(cube_esc.as_str());
                    out.append("/aggregate.");
                    let fmt = self.format.serialize();
                    out.append(fmt.as_str());
                    out.append("?");
                    let joined = join_strings(&pairs, "&");
                    out.append(joined.as_str());
                    Ok(out)
                } else {
                    let mut out = base;
                    out.append("cubes/");
                    let cube_esc = path_escape(cube.as_str());
                    out.append(cube_esc.as_str());
                    out.append("/");
                    Ok(out)
                }
            },
            None => {
                if self.has_query_params() {
                    Err(UrlError::CubeRequiredForQuery)
                } else {
                    let mut out = base;
                    out.append("cubes/");
                    Ok(out)
                }
            },
        }
    }
}

/// The administrative flush URL for a base address and shared secret.
pub open spec fn spec_flush_url(base_url: Seq<char>, secret: Seq<char>) -> Result<
    Seq<char>,
    UrlError,
> {
    let base = spec_slash_norm(base_url);
    if !spec_base_url_accepted(base) {
        Err(UrlError::BadBaseUrl)
    } else {
        Ok(base + "flush?secret="@ + spec_query_escape(secret))
    }
}

/// Builds the administrative flush URL `<base>/flush?secret=<value>`.
pub fn flush_url(base_url: &str, secret: &str) -> (r: Result<String, UrlError>)
    ensures
        spec_flush_url(base_url@, secret@) matches Ok(u) ==> (r matches Ok(s) && s@ == u),
        spec_flush_url(base_url@, secret@) matches Err(e) ==> r == Err::<String, UrlError>(e),
{
    let mut base = base_url.to_owned();
    add_trailing_slash(&mut base);
    if !base_url_accepted(base.as_str()) {
        return Err(UrlError::BadBaseUrl);
    }
    let mut out = base;
    out.append("flush?secret=");
    let esc = query_escape(secret);
    out.append(esc.as_str());
    Ok(out)
}

/// The string-array field a JSON parser yields for the given text, when
/// the text is a JSON object carrying the named field as an array of
/// strings.
pub uninterp spec fn spec_json_string_array_field(s: Seq<char>, field: Seq<char>) -> Option<
    Seq<Seq<char>>,
>;

/// Relies on `serde_json::from_str::<serde_json::Value>`: parsing is a
/// pure function of the input text.  The body only maps the parsed
/// value's variants onto plain values.
#[verifier::external_body]
fn json_string_array_field(s: &str, field: &str) -> (r: Option<Vec<String>>)
    ensures
        r matches Some(v) ==> spec_json_string_array_field(s@, field@) matches Some(ss)
            && seq_views(v@) == ss,
        r is None ==> spec_json_string_array_field(s@, field@) is None,
{
    let value: serde_json::Value = serde_json::from_str(s).ok()?;
    match value.get(field) {
        Some(serde_json::Value::Array(items)) => items.iter().map(
            |item| match item {
                serde_json::Value::String(x) => Some(x.clone()),
                _ => None,
            },
        ).collect(),
        _ => None,
    }
}

/// The two-tier extraction of an error message from a response body:
/// the first entry of a structured `error` string array when the body
/// parses as one and the array is non-empty, otherwise at most the
/// first two raw lines.
pub open spec fn spec_format_backtrace(s: Seq<char>) -> Seq<char> {
    match spec_json_string_array_field(s, "error"@) {
        Some(arr) => if arr.len() > 0 {
            arr[0]
        } else {
            spec_first_two_lines(s)
        },
        None => spec_first_two_lines(s),
    }
}

/// Extracts a short error message from a non-success response body.
pub fn format_backtrace(s: String) -> (r: String)
    ensures
        r@ == spec_format_backtrace(s@),
{
    match json_string_array_field(s.as_str(), "error") {
        Some(v) => {
            if v.len() > 0 {
                v[0].clone()
            } else {
                first_two_lines(s.as_str())
            }
        },
        None => first_two_lines(s.as_str()),
    }
}

/// Law: a base address without a trailing separator and the same
/// address with one appended produce identical finalizer results for
/// every builder state.
pub proof fn lemma_trailing_slash_normalization(q: QueryBuilderV, with_slash: QueryBuilderV)
    requires
        q.base_url.len() > 0,
        q.base_url.last() != '/',
        with_slash == (QueryBuilderV { base_url: q.base_url.push('/'), ..q }),
    ensures
        spec_url(with_slash) == spec_url(q),
{
    assert(spec_slash_norm(with_slash.base_url) =~= spec_slash_norm(q.base_url));
    assert(spec_query_pairs(with_slash) == spec_query_pairs(q));
}

} // verus!
