//! Fully qualified names for the schema: level names and the derived
//! drilldown, measure, cut and property query parameters, with their
//! canonical wire serialization and text parsing.

use crate::text::{
    join_strings, seq_views, seq_views_ref, spec_join, spec_split, spec_strip_brackets, split_str,
    str_eq, strip_brackets,
};
use vstd::prelude::*;

verus! {

/// Mathematical model of a fully qualified level name.
pub ghost struct LevelNameV {
    pub dimension: Seq<char>,
    pub hierarchy: Seq<char>,
    pub level: Seq<char>,
}

/// Mathematical model of a cut.
pub ghost struct CutV {
    pub level_name: LevelNameV,
    pub members: Seq<Seq<char>>,
}

/// Mathematical model of a property request.
pub ghost struct PropertyV {
    pub level_name: LevelNameV,
    pub property: Seq<char>,
}

/// An error in constructing a qualified name.
#[derive(Debug, Clone)]
pub enum NameError {
    /// The segment list follows neither the 3-part nor the 2-part
    /// naming convention; carries the offending segments.
    NamingConvention { segments: Vec<String> },
    /// A cut was given an empty member list.
    EmptyMembers,
}

/// The message text of a name error.
pub open spec fn spec_name_error_message(e: NameError) -> Seq<char> {
    match e {
        NameError::NamingConvention { segments } => "Dimension "@ + spec_join(
            seq_views(segments@),
            ", "@,
        ) + " does not follow naming convention"@,
        NameError::EmptyMembers => "No members found"@,
    }
}

impl NameError {
    /// Renders the error for reporting.
    pub fn message(&self) -> (r: String)
        ensures
            r@ == spec_name_error_message(*self),
    {
        match self {
            NameError::NamingConvention { segments } => {
                let mut out = String::from_str("Dimension ");
                let joined = join_strings(segments, ", ");
                out.append(joined.as_str());
                out.append(" does not follow naming convention");
                out
            },
            NameError::EmptyMembers => String::from_str("No members found"),
        }
    }
}

/// Construction of a level name from already bracket-trimmed segments:
/// three segments name dimension, hierarchy and level directly; two
/// segments name dimension and level, with the hierarchy implicitly the
/// dimension; any other count is rejected with the offending segments.
pub open spec fn spec_from_segments(segs: Seq<Seq<char>>) -> Result<LevelNameV, Seq<Seq<char>>> {
    if segs.len() == 3 {
        Ok(LevelNameV { dimension: segs[0], hierarchy: segs[1], level: segs[2] })
    } else if segs.len() == 2 {
        Ok(LevelNameV { dimension: segs[0], hierarchy: segs[0], level: segs[1] })
    } else {
        Err(segs)
    }
}

/// The canonical bracketed serialization of a level name.
pub open spec fn spec_serialize_level(l: LevelNameV) -> Seq<char> {
    "["@ + l.dimension + "].["@ + l.hierarchy + "].["@ + l.level + "]"@
}

/// Splitting free text on dots, with one matching pair of surrounding
/// brackets stripped from each segment.
pub open spec fn spec_parse_segments(s: Seq<char>) -> Seq<Seq<char>> {
    spec_split(s, '.').map_values(|seg: Seq<char>| spec_strip_brackets(seg))
}

/// Fully qualified name of a dimension, hierarchy, and level.
/// Basis for the other names.
#[derive(Debug)]
pub struct LevelName {
    dimension: String,
    hierarchy: String,
    level: String,
}

impl View for LevelName {
    type V = LevelNameV;

    closed spec fn view(&self) -> LevelNameV {
        LevelNameV {
            dimension: self.dimension@,
            hierarchy: self.hierarchy@,
            level: self.level@,
        }
    }
}

impl Clone for LevelName {
    /// A clone denotes the same qualified name.
    fn clone(&self) -> (r: Self)
        ensures
            r@ == self@,
    {
        LevelName {
            dimension: self.dimension.clone(),
            hierarchy: self.hierarchy.clone(),
            level: self.level.clone(),
        }
    }
}

impl PartialEq for LevelName {
    fn eq(&self, other: &Self) -> (r: bool) {
        let r = str_eq(self.dimension.as_str(), other.dimension.as_str()) && str_eq(
            self.hierarchy.as_str(),
            other.hierarchy.as_str(),
        ) && str_eq(self.level.as_str(), other.level.as_str());
        r
    }
}

impl vstd::std_specs::cmp::PartialEqSpecImpl for LevelName {
    open spec fn obeys_eq_spec() -> bool {
        true
    }

    open spec fn eq_spec(&self, other: &Self) -> bool {
        self@ == other@
    }
}

/// Splits text on dots and strips brackets from each segment.
fn parse_segments(s: &str) -> (r: Vec<String>)
    ensures
        seq_views(r@) == spec_parse_segments(s@),
{
    let raw = split_str(s, '.');
    let mut out: Vec<String> = Vec::new();
    let mut i: usize = 0;
    while i < raw.len()
        invariant
            i <= raw@.len(),
            seq_views(out@) =~= seq_views(raw@).map_values(
                |seg: Seq<char>| spec_strip_brackets(seg),
            ).take(i as int),
        decreases raw@.len() - i,
    {
        out.push(strip_brackets(raw[i].as_str()));
        proof {
            let mapped = seq_views(raw@).map_values(|seg: Seq<char>| spec_strip_brackets(seg));
            assert(mapped.take(i as int + 1) =~= mapped.take(i as int).push(mapped[i as int]));
            assert(seq_views(out@) =~= mapped.take(i as int + 1));
        }
        i = i + 1;
    }
    proof {
        let mapped = seq_views(raw@).map_values(|seg: Seq<char>| spec_strip_brackets(seg));
        assert(mapped.take(raw@.len() as int) =~= mapped);
        assert(seq_views(out@) =~= spec_parse_segments(s@));
    }
    out
}

impl LevelName {
    /// Constructs a level name from its three components.
    pub fn new(dimension: &str, hierarchy: &str, level: &str) -> (r: Self)
        ensures
            r@ == (LevelNameV { dimension: dimension@, hierarchy: hierarchy@, level: level@ }),
    {
        LevelName {
            dimension: dimension.to_owned(),
            hierarchy: hierarchy.to_owned(),
            level: level.to_owned(),
        }
    }

    /// Constructs a level name from 2 or 3 already bracket-trimmed
    /// segments; any other count fails with the offending segments.
    pub fn from_vec(level_name: Vec<&str>) -> (r: Result<Self, NameError>)
        ensures
            match spec_from_segments(seq_views_ref(level_name@)) {
                Ok(l) => r matches Ok(x) && x@ == l,
                Err(segs) => r matches Err(e) && e matches NameError::NamingConvention {
                    segments,
                } && seq_views(segments@) == segs,
            },
    {
        if level_name.len() == 3 {
            Ok(
                LevelName {
                    dimension: level_name[0].to_owned(),
                    hierarchy: level_name[1].to_owned(),
                    level: level_name[2].to_owned(),
                },
            )
        } else if level_name.len() == 2 {
            Ok(
                LevelName {
                    dimension: level_name[0].to_owned(),
                    hierarchy: level_name[0].to_owned(),
                    level: level_name[1].to_owned(),
                },
            )
        } else {
            let mut segments: Vec<String> = Vec::new();
            let mut i: usize = 0;
            while i < level_name.len()
                invariant
                    i <= level_name@.len(),
                    seq_views(segments@) =~= seq_views_ref(level_name@).take(i as int),
                decreases level_name@.len() - i,
            {
                segments.push(level_name[i].to_owned());
                proof {
                    let target = seq_views_ref(level_name@);
                    assert(target.take(i as int + 1) =~= target.take(i as int).push(
                        target[i as int],
                    ));
                    assert(seq_views(segments@) =~= target.take(i as int + 1));
                }
                i = i + 1;
            }
            proof {
                assert(seq_views_ref(level_name@).take(level_name@.len() as int) =~= seq_views_ref(
                    level_name@,
                ));
            }
            Err(NameError::NamingConvention { segments })
        }
    }

    /// Constructs a level name from owned, already bracket-trimmed segments.
    pub fn from_segments(segments: Vec<String>) -> (r: Result<Self, NameError>)
        ensures
            match spec_from_segments(seq_views(segments@)) {
                Ok(l) => r matches Ok(x) && x@ == l,
                Err(segs) => r matches Err(e) && e matches NameError::NamingConvention {
                    segments: offending,
                } && seq_views(offending@) == segs,
            },
    {
        if segments.len() == 3 {
            let dimension = segments[0].clone();
            let hierarchy = segments[1].clone();
            let level = segments[2].clone();
            Ok(LevelName { dimension, hierarchy, level })
        } else if segments.len() == 2 {
            let dimension = segments[0].clone();
            let hierarchy = segments[0].clone();
            let level = segments[1].clone();
            Ok(LevelName { dimension, hierarchy, level })
        } else {
            Err(NameError::NamingConvention { segments })
        }
    }

    /// Parses free text such as `Dim.Hier.Level`, `Dim.Level` or the
    /// bracketed forms, splitting on dots and stripping brackets.
    pub fn parse(s: &str) -> (r: Result<Self, NameError>)
        ensures
            match spec_from_segments(spec_parse_segments(s@)) {
                Ok(l) => r matches Ok(x) && x@ == l,
                Err(segs) => r matches Err(e) && e matches NameError::NamingConvention {
                    segments,
                } && seq_views(segments@) == segs,
            },
    {
        let segments = parse_segments(s);
        Self::from_segments(segments)
    }

    /// The canonical serialization `[dimension].[hierarchy].[level]`.
    pub fn serialize(&self) -> (r: String)
        ensures
            r@ == spec_serialize_level(self@),
    {
        let mut out = String::from_str("[");
        out.append(self.dimension.as_str());
        out.append("].[");
        out.append(self.hierarchy.as_str());
        out.append("].[");
        out.append(self.level.as_str());
        out.append("]");
        out
    }

    /// The dimension component.
    pub fn dimension(&self) -> (r: &str)
        ensures
            r@ == self@.dimension,
    {
        self.dimension.as_str()
    }

    /// The hierarchy component.
    pub fn hierarchy(&self) -> (r: &str)
        ensures
            r@ == self@.hierarchy,
    {
        self.hierarchy.as_str()
    }

    /// The level component.
    pub fn level(&self) -> (r: &str)
        ensures
            r@ == self@.level,
    {
        self.level.as_str()
    }
}

/// A grouping axis for a query; wraps a level name.
#[derive(Debug)]
pub struct Drilldown(LevelName);

impl View for Drilldown {
    type V = LevelNameV;

    closed spec fn view(&self) -> LevelNameV {
        self.0@
    }
}

impl Clone for Drilldown {
    /// A clone denotes the same grouping axis.
    fn clone(&self) -> (r: Self)
        ensures
            r@ == self@,
    {
        Drilldown(self.0.clone())
    }
}

impl PartialEq for Drilldown {
    fn eq(&self, other: &Self) -> (r: bool) {
        self.0.eq(&other.0)
    }
}

impl vstd::std_specs::cmp::PartialEqSpecImpl for Drilldown {
    open spec fn obeys_eq_spec() -> bool {
        true
    }

    open spec fn eq_spec(&self, other: &Self) -> bool {
        self@ == other@
    }
}

impl Drilldown {
    /// Constructs a drilldown from explicit components.
    pub fn new(dimension: &str, hierarchy: &str, level: &str) -> (r: Self)
        ensures
            r@ == (LevelNameV { dimension: dimension@, hierarchy: hierarchy@, level: level@ }),
    {
        Drilldown(LevelName::new(dimension, hierarchy, level))
    }

    /// Constructs a drilldown from 2 or 3 bracket-trimmed segments.
    pub fn from_vec(drilldown: Vec<&str>) -> (r: Result<Self, NameError>)
        ensures
            match spec_from_segments(seq_views_ref(drilldown@)) {
                Ok(l) => r matches Ok(x) && x@ == l,
                Err(segs) => r matches Err(e) && e matches NameError::NamingConvention {
                    segments,
                } && seq_views(segments@) == segs,
            },
    {
        match LevelName::from_vec(drilldown) {
            Ok(l) => Ok(Drilldown(l)),
            Err(e) => Err(e),
        }
    }

    /// Parses a drilldown from dotted free text.
    pub fn parse(s: &str) -> (r: Result<Self, NameError>)
        ensures
            match spec_from_segments(spec_parse_segments(s@)) {
                Ok(l) => r matches Ok(x) && x@ == l,
                Err(segs) => r matches Err(e) && e matches NameError::NamingConvention {
                    segments,
                } && seq_views(segments@) == segs,
            },
    {
        match LevelName::parse(s) {
            Ok(l) => Ok(Drilldown(l)),
            Err(e) => Err(e),
        }
    }

    /// The serialization of the wrapped level name.
    pub fn serialize(&self) -> (r: String)
        ensures
            r@ == spec_serialize_level(self@),
    {
        self.0.serialize()
    }

    /// The wrapped level name.
    pub fn level_name(&self) -> (r: &LevelName)
        ensures
            r@ == self@,
    {
        &self.0
    }
}

/// An aggregatable fact, identified by a bare name.
#[derive(Debug)]
pub struct Measure(String);

impl View for Measure {
    type V = Seq<char>;

    closed spec fn view(&self) -> Seq<char> {
        self.0@
    }
}

impl Clone for Measure {
    /// A clone denotes the same measure.
    fn clone(&self) -> (r: Self)
        ensures
            r@ == self@,
    {
        Measure(self.0.clone())
    }
}

impl PartialEq for Measure {
    fn eq(&self, other: &Self) -> (r: bool) {
        str_eq(self.0.as_str(), other.0.as_str())
    }
}

impl vstd::std_specs::cmp::PartialEqSpecImpl for Measure {
    open spec fn obeys_eq_spec() -> bool {
        true
    }

    open spec fn eq_spec(&self, other: &Self) -> bool {
        self@ == other@
    }
}

impl Measure {
    /// Constructs a measure from its name.
    pub fn new(measure: &str) -> (r: Self)
        ensures
            r@ == measure@,
    {
        Measure(measure.to_owned())
    }

    /// A measure serializes as its bare name.
    pub fn serialize(&self) -> (r: String)
        ensures
            r@ == self@,
    {
        self.0.clone()
    }
}

/// The serialization of one cut member selector.
pub open spec fn spec_serialize_cut_member(l: LevelNameV, m: Seq<char>) -> Seq<char> {
    spec_serialize_level(l) + ".&["@ + m + "]"@
}

/// The serialization of a cut: one member stands alone; several members
/// form a brace-wrapped, comma-joined set of member selectors.
pub open spec fn spec_serialize_cut(c: CutV) -> Seq<char> {
    if c.members.len() == 1 {
        spec_serialize_cut_member(c.level_name, c.members[0])
    } else {
        "{"@ + spec_join(
            c.members.map_values(|m: Seq<char>| spec_serialize_cut_member(c.level_name, m)),
            ","@,
        ) + "}"@
    }
}

/// A restriction of a query to specific members of a level.
/// Invariant: the member list is non-empty, enforced at construction.
#[derive(Debug)]
pub struct Cut {
    level_name: LevelName,
    members: Vec<String>,
}

impl View for Cut {
    type V = CutV;

    closed spec fn view(&self) -> CutV {
        CutV { level_name: self.level_name@, members: seq_views(self.members@) }
    }
}

impl Clone for Cut {
    /// A clone denotes the same cut.
    fn clone(&self) -> (r: Self)
        ensures
            r@ == self@,
    {
        let mut members: Vec<String> = Vec::new();
        let mut i: usize = 0;
        while i < self.members.len()
            invariant
                i <= self.members@.len(),
                seq_views(members@) =~= seq_views(self.members@).take(i as int),
            decreases self.members@.len() - i,
        {
            members.push(self.members[i].clone());
            proof {
                let target = seq_views(self.members@);
                assert(target.take(i as int + 1) =~= target.take(i as int).push(target[i as int]));
            }
            i = i + 1;
        }
        proof {
            assert(seq_views(self.members@).take(self.members@.len() as int) =~= seq_views(
                self.members@,
            ));
        }
        let r = Cut { level_name: self.level_name.clone(), members };
        proof {
            assert(r@ == self@);
        }
        r
    }
}

impl PartialEq for Cut {
    fn eq(&self, other: &Self) -> (r: bool) {
        if !self.level_name.eq(&other.level_name) {
            return false;
        }
        if self.members.len() != other.members.len() {
            proof {
                assert(self@.members.len() == self.members@.len());
                assert(other@.members.len() == other.members@.len());
            }
            return false;
        }
        let mut i: usize = 0;
        while i < self.members.len()
            invariant
                i <= self.members@.len(),
                self.members@.len() == other.members@.len(),
                self@.level_name == other@.level_name,
                forall|j: int| 0 <= j < i ==> self.members@[j]@ == other.members@[j]@,
            decreases self.members@.len() - i,
        {
            if !str_eq(self.members[i].as_str(), other.members[i].as_str()) {
                proof {
                    assert(self@.members[i as int] != other@.members[i as int]);
                }
                return false;
            }
            i = i + 1;
        }
        proof {
            assert(self@.members =~= other@.members);
        }
        true
    }
}

impl vstd::std_specs::cmp::PartialEqSpecImpl for Cut {
    open spec fn obeys_eq_spec() -> bool {
        true
    }

    open spec fn eq_spec(&self, other: &Self) -> bool {
        self@ == other@
    }
}

impl Cut {
    /// Constructs a cut from explicit components and a non-empty member list.
    pub fn new(dimension: &str, hierarchy: &str, level: &str, members: Vec<&str>) -> (r: Self)
        requires
            members@.len() >= 1,
        ensures
            r@.level_name == (LevelNameV {
                dimension: dimension@,
                hierarchy: hierarchy@,
                level: level@,
            }),
            r@.members == seq_views_ref(members@),
    {
        let level_name = LevelName::new(dimension, hierarchy, level);
        let mut owned: Vec<String> = Vec::new();
        let mut i: usize = 0;
        while i < members.len()
            invariant
                i <= members@.len(),
                seq_views(owned@) =~= seq_views_ref(members@).take(i as int),
            decreases members@.len() - i,
        {
            owned.push(members[i].to_owned());
            proof {
                let target = seq_views_ref(members@);
                assert(target.take(i as int + 1) =~= target.take(i as int).push(target[i as int]));
                assert(seq_views(owned@) =~= target.take(i as int + 1));
            }
            i = i + 1;
        }
        proof {
            assert(seq_views_ref(members@).take(members@.len() as int) =~= seq_views_ref(
                members@,
            ));
        }
        Cut { level_name, members: owned }
    }

    /// Constructs a cut from bracket-trimmed level segments and a member
    /// list; fails on an empty member list or a malformed level path.
    pub fn from_vec(cut_level: Vec<&str>, members: Vec<&str>) -> (r: Result<Self, NameError>)
        ensures
            members@.len() == 0 ==> (r matches Err(e) && e is EmptyMembers),
            members@.len() >= 1 ==> match spec_from_segments(seq_views_ref(cut_level@)) {
                Ok(l) => r matches Ok(c) && c@.level_name == l && c@.members == seq_views_ref(
                    members@,
                ),
                Err(segs) => r matches Err(e) && e matches NameError::NamingConvention {
                    segments,
                } && seq_views(segments@) == segs,
            },
    {
        if members.len() == 0 {
            return Err(NameError::EmptyMembers);
        }
        let level_name = match LevelName::from_vec(cut_level) {
            Ok(l) => l,
            Err(e) => {
                return Err(e);
            },
        };
        let mut owned: Vec<String> = Vec::new();
        let mut i: usize = 0;
        while i < members.len()
            invariant
                i <= members@.len(),
                seq_views(owned@) =~= seq_views_ref(members@).take(i as int),
            decreases members@.len() - i,
        {
            owned.push(members[i].to_owned());
            proof {
                let target = seq_views_ref(members@);
                assert(target.take(i as int + 1) =~= target.take(i as int).push(target[i as int]));
                assert(seq_views(owned@) =~= target.take(i as int + 1));
            }
            i = i + 1;
        }
        proof {
            assert(seq_views_ref(members@).take(members@.len() as int) =~= seq_views_ref(
                members@,
            ));
        }
        Ok(Cut { level_name, members: owned })
    }

    /// Parses a cut from dotted free text whose final segment is a
    /// comma-delimited member list, such as `Geography.State.1,2,3`.
    pub fn parse(s: &str) -> (r: Result<Self, NameError>)
        ensures
            ({
                let segs = spec_parse_segments(s@);
                let members = spec_split(segs.last(), ',');
                match spec_from_segments(segs.drop_last()) {
                    Ok(l) => r matches Ok(c) && c@.level_name == l && c@.members == members,
                    Err(path) => r matches Err(e) && e matches NameError::NamingConvention {
                        segments,
                    } && seq_views(segments@) == path,
                }
            }),
    {
        let mut segments = parse_segments(s);
        proof {
            crate::text::lemma_spec_split_len(s@, '.');
            assert(spec_parse_segments(s@).len() == spec_split(s@, '.').len());
        }
        let last = match segments.pop() {
            Some(l) => l,
            None => {
                return Err(
                    NameError::NamingConvention { segments: Vec::new() },
                );  // unreachable: splitting yields at least one segment
            },
        };
        proof {
            assert(seq_views(segments@) =~= spec_parse_segments(s@).drop_last());
        }
        let members = split_str(last.as_str(), ',');
        let level_name = match LevelName::from_segments(segments) {
            Ok(l) => l,
            Err(e) => {
                return Err(e);
            },
        };
        let cut = Cut { level_name, members };
        Ok(cut)
    }

    /// The member-selector serialization of the cut.
    pub fn serialize(&self) -> (r: String)
        ensures
            r@ == spec_serialize_cut(self@),
    {
        if self.members.len() == 1 {
            let mut out = self.level_name.serialize();
            out.append(".&[");
            out.append(self.members[0].as_str());
            out.append("]");
            out
        } else {
            let level = self.level_name.serialize();
            let mut items: Vec<String> = Vec::new();
            let ghost mapped = self@.members.map_values(
                |m: Seq<char>| spec_serialize_cut_member(self@.level_name, m),
            );
            let mut i: usize = 0;
            while i < self.members.len()
                invariant
                    i <= self.members@.len(),
                    level@ == spec_serialize_level(self@.level_name),
                    mapped == self@.members.map_values(
                        |m: Seq<char>| spec_serialize_cut_member(self@.level_name, m),
                    ),
                    seq_views(items@) =~= mapped.take(i as int),
                decreases self.members@.len() - i,
            {
                let mut item = level.clone();
                item.append(".&[");
                item.append(self.members[i].as_str());
                item.append("]");
                items.push(item);
                proof {
                    assert(mapped.take(i as int + 1) =~= mapped.take(i as int).push(
                        mapped[i as int],
                    ));
                    assert(item@ == mapped[i as int]);
                    assert(seq_views(items@) =~= mapped.take(i as int + 1));
                }
                i = i + 1;
            }
            proof {
                assert(mapped.take(self.members@.len() as int) =~= mapped);
            }
            let mut out = String::from_str("{");
            let joined = join_strings(&items, ",");
            out.append(joined.as_str());
            out.append("}");
            out
        }
    }

    /// The level the cut restricts.
    pub fn level_name(&self) -> (r: &LevelName)
        ensures
            r@ == self@.level_name,
    {
        &self.level_name
    }

    /// The selected member keys.
    pub fn members(&self) -> (r: &Vec<String>)
        ensures
            seq_views(r@) == self@.members,
    {
        &self.members
    }
}

/// The serialization of a property request.
pub open spec fn spec_serialize_property(p: PropertyV) -> Seq<char> {
    spec_serialize_level(p.level_name) + ".["@ + p.property + "]"@
}

/// A request for a non-measure attribute of members at a level.
#[derive(Debug)]
pub struct Property {
    level_name: LevelName,
    property: String,
}

impl View for Property {
    type V = PropertyV;

    closed spec fn view(&self) -> PropertyV {
        PropertyV { level_name: self.level_name@, property: self.property@ }
    }
}

impl Clone for Property {
    /// A clone denotes the same property request.
    fn clone(&self) -> (r: Self)
        ensures
            r@ == self@,
    {
        Property { level_name: self.level_name.clone(), property: self.property.clone() }
    }
}

impl PartialEq for Property {
    fn eq(&self, other: &Self) -> (r: bool) {
        self.level_name.eq(&other.level_name) && str_eq(
            self.property.as_str(),
            other.property.as_str(),
        )
    }
}

impl vstd::std_specs::cmp::PartialEqSpecImpl for Property {
    open spec fn obeys_eq_spec() -> bool {
        true
    }

    open spec fn eq_spec(&self, other: &Self) -> bool {
        self@ == other@
    }
}

impl Property {
    /// Constructs a property request from explicit components.
    pub fn new(dimension: &str, hierarchy: &str, level: &str, property: &str) -> (r: Self)
        ensures
            r@.level_name == (LevelNameV {
                dimension: dimension@,
                hierarchy: hierarchy@,
                level: level@,
            }),
            r@.property == property@,
    {
        Property {
            level_name: LevelName::new(dimension, hierarchy, level),
            property: property.to_owned(),
        }
    }

    /// Constructs a property request from bracket-trimmed segments whose
    /// final segment is the property name and whose remainder is the
    /// level path.
    pub fn from_vec(property: Vec<&str>) -> (r: Result<Self, NameError>)
        requires
            property@.len() >= 1,
        ensures
            match spec_from_segments(seq_views_ref(property@).drop_last()) {
                Ok(l) => r matches Ok(p) && p@.level_name == l && p@.property == seq_views_ref(
                    property@,
                ).last(),
                Err(segs) => r matches Err(e) && e matches NameError::NamingConvention {
                    segments,
                } && seq_views(segments@) == segs,
            },
    {
        let mut path: Vec<String> = Vec::new();
        let mut i: usize = 0;
        while i < property.len() - 1
            invariant
                property@.len() >= 1,
                i <= property@.len() - 1,
                seq_views(path@) =~= seq_views_ref(property@).take(i as int),
            decreases property@.len() - 1 - i,
        {
            path.push(property[i].to_owned());
            proof {
                let target = seq_views_ref(property@);
                assert(target.take(i as int + 1) =~= target.take(i as int).push(target[i as int]));
                assert(seq_views(path@) =~= target.take(i as int + 1));
            }
            i = i + 1;
        }
        proof {
            assert(seq_views_ref(property@).take(property@.len() - 1) =~= seq_views_ref(
                property@,
            ).drop_last());
        }
        let name = property[property.len() - 1].to_owned();
        match LevelName::from_segments(path) {
            Ok(l) => Ok(Property { level_name: l, property: name }),
            Err(e) => Err(e),
        }
    }

    /// Parses a property request from dotted free text whose final
    /// segment is the property name.
    pub fn parse(s: &str) -> (r: Result<Self, NameError>)
        ensures
            ({
                let segs = spec_parse_segments(s@);
                match spec_from_segments(segs.drop_last()) {
                    Ok(l) => r matches Ok(p) && p@.level_name == l && p@.property == segs.last(),
                    Err(path) => r matches Err(e) && e matches NameError::NamingConvention {
                        segments,
                    } && seq_views(segments@) == path,
                }
            }),
    {
        let mut segments = parse_segments(s);
        proof {
            crate::text::lemma_spec_split_len(s@, '.');
            assert(spec_parse_segments(s@).len() == spec_split(s@, '.').len());
        }
        let name = match segments.pop() {
            Some(l) => l,
            None => {
                return Err(
                    NameError::NamingConvention { segments: Vec::new() },
                );  // unreachable: splitting yields at least one segment
            },
        };
        proof {
            assert(seq_views(segments@) =~= spec_parse_segments(s@).drop_last());
        }
        match LevelName::from_segments(segments) {
            Ok(l) => Ok(Property { level_name: l, property: name }),
            Err(e) => Err(e),
        }
    }

    /// The serialization `<levelname>.[property]`.
    pub fn serialize(&self) -> (r: String)
        ensures
            r@ == spec_serialize_property(self@),
    {
        let mut out = self.level_name.serialize();
        out.append(".[");
        out.append(self.property.as_str());
        out.append("]");
        out
    }

    /// The owning level as a drilldown, for pairing a property query
    /// with its own grouping axis.
    pub fn drill_level(&self) -> (r: Drilldown)
        ensures
            r@ == self@.level_name,
    {
        Drilldown(
            LevelName::new(
                self.level_name.dimension.as_str(),
                self.level_name.hierarchy.as_str(),
                self.level_name.level.as_str(),
            ),
        )
    }

    /// The property name.
    pub fn property_name(&self) -> (r: &str)
        ensures
            r@ == self@.property,
    {
        self.property.as_str()
    }
}

/// Law: for every 2- or 3-segment input, constructing a level name
/// succeeds and its serialization is the canonical bracketed form of
/// the given segments.
pub proof fn lemma_from_segments_serialize_round_trip(segs: Seq<Seq<char>>)
    requires
        segs.len() == 2 || segs.len() == 3,
    ensures
        spec_from_segments(segs) is Ok,
        segs.len() == 3 ==> spec_serialize_level(spec_from_segments(segs)->Ok_0) == "["@ + segs[0]
            + "].["@ + segs[1] + "].["@ + segs[2] + "]"@,
        segs.len() == 2 ==> spec_serialize_level(spec_from_segments(segs)->Ok_0) == "["@ + segs[0]
            + "].["@ + segs[0] + "].["@ + segs[1] + "]"@,
{
}

/// Law: a segment list of length 1 or of length 4 or more is rejected,
/// and the error carries exactly the offending segments.
pub proof fn lemma_from_segments_rejects_wrong_count(segs: Seq<Seq<char>>)
    requires
        segs.len() == 1 || segs.len() >= 4,
    ensures
        spec_from_segments(segs) == Err::<LevelNameV, Seq<Seq<char>>>(segs),
{
}

/// Law: a cut with a single member serializes as one bare member
/// selector, while a cut with two members serializes as the
/// brace-wrapped, comma-joined pair of member selectors.
pub proof fn lemma_cut_serialization_shape(c: CutV)
    requires
        1 <= c.members.len() <= 2,
    ensures
        c.members.len() == 1 ==> spec_serialize_cut(c) == spec_serialize_cut_member(
            c.level_name,
            c.members[0],
        ),
        c.members.len() == 2 ==> spec_serialize_cut(c) =~= "{"@ + spec_serialize_cut_member(
            c.level_name,
            c.members[0],
        ) + ","@ + spec_serialize_cut_member(c.level_name, c.members[1]) + "}"@,
{
    if c.members.len() == 2 {
        let mapped = c.members.map_values(
            |m: Seq<char>| spec_serialize_cut_member(c.level_name, m),
        );
        assert(mapped.drop_last() =~= seq![mapped[0]]);
        assert(spec_join(seq![mapped[0]], ","@) == mapped[0]);
        assert(spec_join(mapped, ","@) == mapped[0] + ","@ + mapped[1]);
    }
}

} // verus!
