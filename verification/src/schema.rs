//! The read-only cube schema description tree, its text rendering, and
//! the schema-driven test-matrix generator.

use crate::api::names::{spec_serialize_level, LevelNameV};
use crate::text::{i64_to_string, seq_views, spec_dec_int};
use vstd::prelude::*;

verus! {

/// The catalog of cube descriptions.
#[derive(Debug)]
pub struct CubeDescriptions {
    pub cubes: Vec<CubeDescription>,
}

/// A one-shot, read-only description of one cube: its dimensions with
/// their hierarchies and levels, its measures, its named sets and its
/// annotations.
#[derive(Debug)]
pub struct CubeDescription {
    pub name: String,
    pub dimensions: Vec<Dimension>,
    pub measures: Vec<Measure>,
    pub named_sets: Vec<NamedSet>,
    pub annotations: Vec<(String, String)>,
}

/// A classification axis of a cube.
#[derive(Debug)]
pub struct Dimension {
    pub name: String,
    pub caption: String,
    pub annotations: Vec<(String, String)>,
    pub hierarchies: Vec<Hierarchy>,
}

/// One hierarchy of a dimension; its first level is the synthetic
/// top level every hierarchy carries.
#[derive(Debug)]
pub struct Hierarchy {
    pub name: String,
    pub has_all: bool,
    pub all_member_name: String,
    pub levels: Vec<Level>,
}

/// One granularity within a hierarchy.
#[derive(Debug)]
pub struct Level {
    pub name: String,
    pub full_name: String,
    pub depth: u32,
    pub caption: String,
    pub annotations: Vec<(String, String)>,
    pub properties: Vec<String>,
}

/// An aggregatable fact of a cube.
#[derive(Debug)]
pub struct Measure {
    pub name: String,
    pub caption: String,
    pub annotations: Vec<(String, String)>,
    pub full_name: String,
    pub aggregator: Option<String>,
}

/// A named member set of a cube, resolved to a level.
#[derive(Debug)]
pub struct NamedSet {
    pub name: String,
    pub dimension: String,
    pub hierarchy: String,
    pub level: String,
    pub annotations: Vec<(String, String)>,
}

/// The derived test matrix of a cube: one representative drilldown per
/// dimension, every measure, and one full name per declared property.
#[derive(Debug)]
pub struct Test {
    pub name: String,
    pub dims: Vec<String>,
    pub meas: Vec<String>,
    pub props: Vec<String>,
}

/// The member listing of one level.
#[derive(Debug)]
pub struct Members {
    pub name: String,
    pub caption: String,
    pub members: Vec<Member>,
}

/// One member of a level.
#[derive(Debug)]
pub struct Member {
    pub name: String,
    pub full_name: String,
    pub caption: String,
    pub key: Key,
    pub is_all_member: bool,
    pub is_drillable: bool,
    pub depth: u32,
    pub num_children: u32,
    pub parent_name: String,
    pub level_name: String,
    pub children: Vec<String>,
}

/// A member key: the service sends either text or an integer.
#[derive(Debug)]
pub enum Key {
    Text(String),
    Int(i64),
}

/// The rendering of a member key.
pub open spec fn spec_key_str(k: Key) -> Seq<char> {
    match k {
        Key::Text(s) => s@,
        Key::Int(i) => spec_dec_int(i as int),
    }
}

impl Key {
    /// Renders the key.
    pub fn display(&self) -> (r: String)
        ensures
            r@ == spec_key_str(*self),
    {
        match self {
            Key::Text(s) => s.clone(),
            Key::Int(i) => i64_to_string(*i),
        }
    }
}

/// The annotation lines under one indent: `<indent>(key: value)` each.
pub open spec fn spec_ann_lines(indent: Seq<char>, anns: Seq<(String, String)>) -> Seq<char>
    decreases anns.len(),
{
    if anns.len() == 0 {
        Seq::empty()
    } else {
        spec_ann_lines(indent, anns.drop_last()) + indent + "("@ + anns.last().0@ + ": "@
            + anns.last().1@ + ")\n"@
    }
}

/// Appends the annotation lines under the given indent.
fn push_ann_lines(out: &mut String, indent: &str, anns: &Vec<(String, String)>)
    ensures
        final(out)@ == old(out)@ + spec_ann_lines(indent@, anns@),
{
    let mut i: usize = 0;
    while i < anns.len()
        invariant
            i <= anns@.len(),
            out@ =~= old(out)@ + spec_ann_lines(indent@, anns@.take(i as int)),
        decreases anns@.len() - i,
    {
        out.append(indent);
        out.append("(");
        out.append(anns[i].0.as_str());
        out.append(": ");
        out.append(anns[i].1.as_str());
        out.append(")\n");
        proof {
            assert(anns@.take(i as int + 1).drop_last() =~= anns@.take(i as int));
            assert(anns@.take(i as int + 1).last() == anns@[i as int]);
            assert(out@ =~= old(out)@ + spec_ann_lines(indent@, anns@.take(i as int + 1)));
        }
        i = i + 1;
    }
    proof {
        assert(anns@.take(anns@.len() as int) =~= anns@);
    }
}

/// The property lines of one level.
pub open spec fn spec_prop_lines(props: Seq<String>) -> Seq<char>
    decreases props.len(),
{
    if props.len() == 0 {
        Seq::empty()
    } else {
        spec_prop_lines(props.drop_last()) + "      "@ + props.last()@ + " (property)\n"@
    }
}

/// Appends the property lines of one level.
fn push_prop_lines(out: &mut String, props: &Vec<String>)
    ensures
        final(out)@ == old(out)@ + spec_prop_lines(props@),
{
    let mut i: usize = 0;
    while i < props.len()
        invariant
            i <= props@.len(),
            out@ =~= old(out)@ + spec_prop_lines(props@.take(i as int)),
        decreases props@.len() - i,
    {
        out.append("      ");
        out.append(props[i].as_str());
        out.append(" (property)\n");
        proof {
            assert(props@.take(i as int + 1).drop_last() =~= props@.take(i as int));
            assert(props@.take(i as int + 1).last() == props@[i as int]);
            assert(out@ =~= old(out)@ + spec_prop_lines(props@.take(i as int + 1)));
        }
        i = i + 1;
    }
    proof {
        assert(props@.take(props@.len() as int) =~= props@);
    }
}

/// The block of one displayed level: its full name, its properties and
/// its annotations.
pub open spec fn spec_level_block(l: Level) -> Seq<char> {
    "    "@ + l.full_name@ + "\n"@ + spec_prop_lines(l.properties@) + spec_ann_lines(
        "      "@,
        l.annotations@,
    )
}

/// Appends the block of one displayed level.
fn push_level_block(out: &mut String, l: &Level)
    ensures
        final(out)@ == old(out)@ + spec_level_block(*l),
{
    out.append("    ");
    out.append(l.full_name.as_str());
    out.append("\n");
    push_prop_lines(out, &l.properties);
    push_ann_lines(out, "      ", &l.annotations);
    proof {
        assert(out@ =~= old(out)@ + spec_level_block(*l));
    }
}

/// The blocks of the given levels, in order.
pub open spec fn spec_levels_blocks(ls: Seq<Level>) -> Seq<char>
    decreases ls.len(),
{
    if ls.len() == 0 {
        Seq::empty()
    } else {
        spec_levels_blocks(ls.drop_last()) + spec_level_block(ls.last())
    }
}

/// The displayed block of one hierarchy: every level except the
/// synthetic top level at index 0.
pub open spec fn spec_hier_block(h: Hierarchy) -> Seq<char> {
    if h.levels@.len() >= 1 {
        spec_levels_blocks(h.levels@.drop_first())
    } else {
        Seq::empty()
    }
}

/// Appends the displayed block of one hierarchy.
fn push_hier_block(out: &mut String, h: &Hierarchy)
    ensures
        final(out)@ == old(out)@ + spec_hier_block(*h),
{
    let ghost tail = if h.levels@.len() >= 1 {
        h.levels@.drop_first()
    } else {
        Seq::<Level>::empty()
    };
    let mut i: usize = 1;
    proof {
        assert(tail.take(0) =~= Seq::<Level>::empty());
    }
    while i < h.levels.len()
        invariant
            1 <= i,
            i <= h.levels@.len() || i == 1,
            tail == (if h.levels@.len() >= 1 {
                h.levels@.drop_first()
            } else {
                Seq::<Level>::empty()
            }),
            i <= h.levels@.len() ==> out@ =~= old(out)@ + spec_levels_blocks(
                tail.take(i as int - 1),
            ),
            h.levels@.len() == 0 ==> out@ == old(out)@,
        decreases h.levels@.len() - i,
    {
        push_level_block(out, &h.levels[i]);
        proof {
            assert(tail.take(i as int).drop_last() =~= tail.take(i as int - 1));
            assert(tail.take(i as int).last() == h.levels@[i as int]);
            assert(out@ =~= old(out)@ + spec_levels_blocks(tail.take(i as int)));
        }
        i = i + 1;
    }
    proof {
        if h.levels@.len() >= 1 {
            assert(tail.take(h.levels@.len() - 1) =~= tail);
        }
        assert(out@ =~= old(out)@ + spec_hier_block(*h));
    }
}

/// The blocks of the given hierarchies, in order.
pub open spec fn spec_hiers_blocks(hs: Seq<Hierarchy>) -> Seq<char>
    decreases hs.len(),
{
    if hs.len() == 0 {
        Seq::empty()
    } else {
        spec_hiers_blocks(hs.drop_last()) + spec_hier_block(hs.last())
    }
}

/// The displayed block of one dimension: its annotations, then its
/// hierarchies' level blocks.
pub open spec fn spec_dim_block(d: Dimension) -> Seq<char> {
    spec_ann_lines("    "@, d.annotations@) + spec_hiers_blocks(d.hierarchies@)
}

/// Appends the displayed block of one dimension.
fn push_dim_block(out: &mut String, d: &Dimension)
    ensures
        final(out)@ == old(out)@ + spec_dim_block(*d),
{
    push_ann_lines(out, "    ", &d.annotations);
    let ghost mid = out@;
    let mut i: usize = 0;
    while i < d.hierarchies.len()
        invariant
            i <= d.hierarchies@.len(),
            mid == old(out)@ + spec_ann_lines("    "@, d.annotations@),
            out@ =~= mid + spec_hiers_blocks(d.hierarchies@.take(i as int)),
        decreases d.hierarchies@.len() - i,
    {
        push_hier_block(out, &d.hierarchies[i]);
        proof {
            assert(d.hierarchies@.take(i as int + 1).drop_last() =~= d.hierarchies@.take(i as int));
            assert(d.hierarchies@.take(i as int + 1).last() == d.hierarchies@[i as int]);
            assert(out@ =~= mid + spec_hiers_blocks(d.hierarchies@.take(i as int + 1)));
        }
        i = i + 1;
    }
    proof {
        assert(d.hierarchies@.take(d.hierarchies@.len() as int) =~= d.hierarchies@);
        assert(out@ =~= old(out)@ + spec_dim_block(*d));
    }
}

/// The blocks of the given dimensions, in order.
pub open spec fn spec_dims_blocks(ds: Seq<Dimension>) -> Seq<char>
    decreases ds.len(),
{
    if ds.len() == 0 {
        Seq::empty()
    } else {
        spec_dims_blocks(ds.drop_last()) + spec_dim_block(ds.last())
    }
}

/// The displayed block of one named set: its annotations, then its name
/// and resolved level name.
pub open spec fn spec_named_set_block(ns: NamedSet) -> Seq<char> {
    spec_ann_lines("    "@, ns.annotations@) + "    "@ + ns.name@ + ": "@ + spec_serialize_level(
        LevelNameV { dimension: ns.dimension@, hierarchy: ns.hierarchy@, level: ns.level@ },
    ) + "\n"@
}

/// The blocks of the given named sets, in order.
pub open spec fn spec_named_sets_blocks(nss: Seq<NamedSet>) -> Seq<char>
    decreases nss.len(),
{
    if nss.len() == 0 {
        Seq::empty()
    } else {
        spec_named_sets_blocks(nss.drop_last()) + spec_named_set_block(nss.last())
    }
}

/// The displayed block of one measure: its annotations, its name and
/// its optional aggregator.
pub open spec fn spec_measure_block(m: Measure) -> Seq<char> {
    spec_ann_lines("    "@, m.annotations@) + "    "@ + m.name@ + (match m.aggregator {
        Some(a) => " | agg: "@ + a@,
        None => Seq::empty(),
    }) + "\n"@
}

/// The blocks of the given measures, in order.
pub open spec fn spec_measures_blocks(ms: Seq<Measure>) -> Seq<char>
    decreases ms.len(),
{
    if ms.len() == 0 {
        Seq::empty()
    } else {
        spec_measures_blocks(ms.drop_last()) + spec_measure_block(ms.last())
    }
}

/// The full displayed description of a cube: its name and annotations;
/// every level of every hierarchy but the synthetic top levels, each
/// with properties and annotations; its named sets; its measures.
pub open spec fn spec_cube_display(c: CubeDescription) -> Seq<char> {
    "Cube: "@ + c.name@ + "\n"@ + spec_ann_lines("  "@, c.annotations@)
        + "  Dimensions, Hierarchies, and Levels:\n"@ + spec_dims_blocks(c.dimensions@) + (
    if c.named_sets@.len() > 0 {
        "  Named Sets:\n"@
    } else {
        Seq::<char>::empty()
    }) + spec_named_sets_blocks(c.named_sets@) + "  Measures:\n"@ + spec_measures_blocks(
        c.measures@,
    )
}

/// Appends the displayed block of one named set.
fn push_named_set_block(out: &mut String, ns: &NamedSet)
    ensures
        final(out)@ == old(out)@ + spec_named_set_block(*ns),
{
    push_ann_lines(out, "    ", &ns.annotations);
    out.append("    ");
    out.append(ns.name.as_str());
    out.append(": ");
    let level_name = crate::api::names::LevelName::new(
        ns.dimension.as_str(),
        ns.hierarchy.as_str(),
        ns.level.as_str(),
    );
    let serialized = level_name.serialize();
    out.append(serialized.as_str());
    out.append("\n");
    proof {
        assert(out@ =~= old(out)@ + spec_named_set_block(*ns));
    }
}

/// Appends the displayed block of one measure.
fn push_measure_block(out: &mut String, m: &Measure)
    ensures
        final(out)@ == old(out)@ + spec_measure_block(*m),
{
    push_ann_lines(out, "    ", &m.annotations);
    out.append("    ");
    out.append(m.name.as_str());
    if let Some(agg) = &m.aggregator {
        out.append(" | agg: ");
        out.append(agg.as_str());
    }
    out.append("\n");
    proof {
        assert(out@ =~= old(out)@ + spec_measure_block(*m));
    }
}

impl CubeDescription {
    /// Renders the description for reporting.
    pub fn display(&self) -> (r: String)
        ensures
            r@ == spec_cube_display(*self),
    {
        let mut out = String::from_str("Cube: ");
        out.append(self.name.as_str());
        out.append("\n");
        push_ann_lines(&mut out, "  ", &self.annotations);
        out.append("  Dimensions, Hierarchies, and Levels:\n");
        let ghost mid1 = out@;
        let mut i: usize = 0;
        while i < self.dimensions.len()
            invariant
                i <= self.dimensions@.len(),
                mid1 == "Cube: "@ + self.name@ + "\n"@ + spec_ann_lines("  "@, self.annotations@)
                    + "  Dimensions, Hierarchies, and Levels:\n"@,
                out@ =~= mid1 + spec_dims_blocks(self.dimensions@.take(i as int)),
            decreases self.dimensions@.len() - i,
        {
            push_dim_block(&mut out, &self.dimensions[i]);
            proof {
                assert(self.dimensions@.take(i as int + 1).drop_last() =~= self.dimensions@.take(
                    i as int,
                ));
                assert(self.dimensions@.take(i as int + 1).last() == self.dimensions@[i as int]);
                assert(out@ =~= mid1 + spec_dims_blocks(self.dimensions@.take(i as int + 1)));
            }
            i = i + 1;
        }
        proof {
            assert(self.dimensions@.take(self.dimensions@.len() as int) =~= self.dimensions@);
        }
        if self.named_sets.len() > 0 {
            out.append("  Named Sets:\n");
        }
        let ghost mid2 = out@;
        let mut i: usize = 0;
        while i < self.named_sets.len()
            invariant
                i <= self.named_sets@.len(),
                mid2 == mid1 + spec_dims_blocks(self.dimensions@) + (
                if self.named_sets@.len() > 0 {
                    "  Named Sets:\n"@
                } else {
                    Seq::<char>::empty()
                }),
                out@ =~= mid2 + spec_named_sets_blocks(self.named_sets@.take(i as int)),
            decreases self.named_sets@.len() - i,
        {
            push_named_set_block(&mut out, &self.named_sets[i]);
            proof {
                assert(self.named_sets@.take(i as int + 1).drop_last() =~= self.named_sets@.take(
                    i as int,
                ));
                assert(self.named_sets@.take(i as int + 1).last() == self.named_sets@[i as int]);
                assert(out@ =~= mid2 + spec_named_sets_blocks(
                    self.named_sets@.take(i as int + 1),
                ));
            }
            i = i + 1;
        }
        proof {
            assert(self.named_sets@.take(self.named_sets@.len() as int) =~= self.named_sets@);
        }
        out.append("  Measures:\n");
        let ghost mid3 = out@;
        let mut i: usize = 0;
        while i < self.measures.len()
            invariant
                i <= self.measures@.len(),
                mid3 == mid2 + spec_named_sets_blocks(self.named_sets@) + "  Measures:\n"@,
                out@ =~= mid3 + spec_measures_blocks(self.measures@.take(i as int)),
            decreases self.measures@.len() - i,
        {
            push_measure_block(&mut out, &self.measures[i]);
            proof {
                assert(self.measures@.take(i as int + 1).drop_last() =~= self.measures@.take(
                    i as int,
                ));
                assert(self.measures@.take(i as int + 1).last() == self.measures@[i as int]);
                assert(out@ =~= mid3 + spec_measures_blocks(self.measures@.take(i as int + 1)));
            }
            i = i + 1;
        }
        proof {
            assert(self.measures@.take(self.measures@.len() as int) =~= self.measures@);
            assert(out@ =~= spec_cube_display(*self));
        }
        out
    }
}

/// The representative drilldowns of the test matrix: for each dimension
/// that has a hierarchy with a level, the full name of the first level
/// of its first hierarchy.
pub open spec fn spec_test_dims(dims: Seq<Dimension>) -> Seq<Seq<char>>
    decreases dims.len(),
{
    if dims.len() == 0 {
        Seq::empty()
    } else {
        let pre = spec_test_dims(dims.drop_last());
        let d = dims.last();
        if d.hierarchies@.len() > 0 && d.hierarchies@[0].levels@.len() > 0 {
            pre.push(d.hierarchies@[0].levels@[0].full_name@)
        } else {
            pre
        }
    }
}

/// The measure names of the test matrix.
pub open spec fn spec_test_meas(ms: Seq<Measure>) -> Seq<Seq<char>> {
    ms.map_values(|m: Measure| m.name@)
}

/// One property full name of the test matrix.
pub open spec fn spec_prop_full_name(level_full: Seq<char>, prop: Seq<char>) -> Seq<char> {
    level_full + ".["@ + prop + "]"@
}

/// The property full names declared by one level.
pub open spec fn spec_level_prop_names(l: Level) -> Seq<Seq<char>> {
    l.properties@.map_values(|p: String| spec_prop_full_name(l.full_name@, p@))
}

/// The property full names of a sequence of levels.
pub open spec fn spec_levels_prop_names(ls: Seq<Level>) -> Seq<Seq<char>>
    decreases ls.len(),
{
    if ls.len() == 0 {
        Seq::empty()
    } else {
        spec_levels_prop_names(ls.drop_last()) + spec_level_prop_names(ls.last())
    }
}

/// The property full names of a sequence of hierarchies.
pub open spec fn spec_hiers_prop_names(hs: Seq<Hierarchy>) -> Seq<Seq<char>>
    decreases hs.len(),
{
    if hs.len() == 0 {
        Seq::empty()
    } else {
        spec_hiers_prop_names(hs.drop_last()) + spec_levels_prop_names(hs.last().levels@)
    }
}

/// The property full names of the test matrix: one per declared
/// property of every level of every hierarchy of every dimension.
pub open spec fn spec_test_props(ds: Seq<Dimension>) -> Seq<Seq<char>>
    decreases ds.len(),
{
    if ds.len() == 0 {
        Seq::empty()
    } else {
        spec_test_props(ds.drop_last()) + spec_hiers_prop_names(ds.last().hierarchies@)
    }
}

impl CubeDescription {
    /// Derives the test matrix of the cube: one representative
    /// drilldown per dimension (the first level of its first
    /// hierarchy), every measure name, and one full name per declared
    /// level property.
    pub fn test_drill_mea_prop(&self) -> (r: Test)
        ensures
            r.name@ == self.name@,
            seq_views(r.dims@) == spec_test_dims(self.dimensions@),
            seq_views(r.meas@) == spec_test_meas(self.measures@),
            seq_views(r.props@) == spec_test_props(self.dimensions@),
    {
        let mut test_dims: Vec<String> = Vec::new();
        let mut i: usize = 0;
        while i < self.dimensions.len()
            invariant
                i <= self.dimensions@.len(),
                seq_views(test_dims@) =~= spec_test_dims(self.dimensions@.take(i as int)),
            decreases self.dimensions@.len() - i,
        {
            let dim = &self.dimensions[i];
            proof {
                assert(self.dimensions@.take(i as int + 1).drop_last() =~= self.dimensions@.take(
                    i as int,
                ));
                assert(self.dimensions@.take(i as int + 1).last() == self.dimensions@[i as int]);
            }
            if dim.hierarchies.len() > 0 {
                let hier = &dim.hierarchies[0];
                if hier.levels.len() > 0 {
                    test_dims.push(hier.levels[0].full_name.clone());
                }
            }
            proof {
                assert(seq_views(test_dims@) =~= spec_test_dims(
                    self.dimensions@.take(i as int + 1),
                ));
            }
            i = i + 1;
        }
        proof {
            assert(self.dimensions@.take(self.dimensions@.len() as int) =~= self.dimensions@);
        }
        let mut test_meas: Vec<String> = Vec::new();
        let ghost meas_target = spec_test_meas(self.measures@);
        let mut i: usize = 0;
        while i < self.measures.len()
            invariant
                i <= self.measures@.len(),
                meas_target == spec_test_meas(self.measures@),
                seq_views(test_meas@) =~= meas_target.take(i as int),
            decreases self.measures@.len() - i,
        {
            test_meas.push(self.measures[i].name.clone());
            proof {
                assert(meas_target.take(i as int + 1) =~= meas_target.take(i as int).push(
                    meas_target[i as int],
                ));
                assert(seq_views(test_meas@) =~= meas_target.take(i as int + 1));
            }
            i = i + 1;
        }
        proof {
            assert(meas_target.take(self.measures@.len() as int) =~= meas_target);
        }
        let mut test_props: Vec<String> = Vec::new();
        let mut i: usize = 0;
        while i < self.dimensions.len()
            invariant
                i <= self.dimensions@.len(),
                seq_views(test_props@) =~= spec_test_props(self.dimensions@.take(i as int)),
            decreases self.dimensions@.len() - i,
        {
            let dim = &self.dimensions[i];
            let ghost dim_start = seq_views(test_props@);
            let mut j: usize = 0;
            while j < dim.hierarchies.len()
                invariant
                    j <= dim.hierarchies@.len(),
                    dim == &self.dimensions[i as int],
                    i < self.dimensions@.len(),
                    dim_start == spec_test_props(self.dimensions@.take(i as int)),
                    seq_views(test_props@) =~= dim_start + spec_hiers_prop_names(
                        dim.hierarchies@.take(j as int),
                    ),
                decreases dim.hierarchies@.len() - j,
            {
                let hier = &dim.hierarchies[j];
                let ghost hier_start = seq_views(test_props@);
                let mut k: usize = 0;
                while k < hier.levels.len()
                    invariant
                        k <= hier.levels@.len(),
                        hier == &dim.hierarchies@[j as int],
                        j < dim.hierarchies@.len(),
                        hier_start == dim_start + spec_hiers_prop_names(
                            dim.hierarchies@.take(j as int),
                        ),
                        seq_views(test_props@) =~= hier_start + spec_levels_prop_names(
                            hier.levels@.take(k as int),
                        ),
                    decreases hier.levels@.len() - k,
                {
                    let level = &hier.levels[k];
                    let ghost level_start = seq_views(test_props@);
                    let ghost level_target = spec_level_prop_names(hier.levels@[k as int]);
                    let mut m: usize = 0;
                    while m < level.properties.len()
                        invariant
                            m <= level.properties@.len(),
                            level == &hier.levels@[k as int],
                            k < hier.levels@.len(),
                            level_target == spec_level_prop_names(hier.levels@[k as int]),
                            level_target == level.properties@.map_values(
                                |p: String| spec_prop_full_name(level.full_name@, p@),
                            ),
                            seq_views(test_props@) =~= level_start + level_target.take(m as int),
                        decreases level.properties@.len() - m,
                    {
                        let ghost prev = test_props@;
                        let mut full = level.full_name.clone();
                        full.append(".[");
                        full.append(level.properties[m].as_str());
                        full.append("]");
                        let ghost full_view = full@;
                        test_props.push(full);
                        proof {
                            assert(full_view == level_target[m as int]);
                            assert(seq_views(test_props@) =~= seq_views(prev).push(full_view));
                            assert(level_target.take(m as int + 1) =~= level_target.take(
                                m as int,
                            ).push(level_target[m as int]));
                            assert(seq_views(test_props@) =~= level_start + level_target.take(
                                m as int + 1,
                            ));
                        }
                        m = m + 1;
                    }
                    proof {
                        assert(level_target.take(level.properties@.len() as int) =~= level_target);
                        assert(hier.levels@.take(k as int + 1).drop_last() =~= hier.levels@.take(
                            k as int,
                        ));
                        assert(hier.levels@.take(k as int + 1).last() == hier.levels@[k as int]);
                        assert(seq_views(test_props@) =~= hier_start + spec_levels_prop_names(
                            hier.levels@.take(k as int + 1),
                        ));
                    }
                    k = k + 1;
                }
                proof {
                    assert(hier.levels@.take(hier.levels@.len() as int) =~= hier.levels@);
                    assert(dim.hierarchies@.take(j as int + 1).drop_last() =~= dim.hierarchies@.take(
                        j as int,
                    ));
                    assert(dim.hierarchies@.take(j as int + 1).last() == dim.hierarchies@[j as int]);
                    assert(seq_views(test_props@) =~= dim_start + spec_hiers_prop_names(
                        dim.hierarchies@.take(j as int + 1),
                    ));
                }
                j = j + 1;
            }
            proof {
                assert(dim.hierarchies@.take(dim.hierarchies@.len() as int) =~= dim.hierarchies@);
                assert(self.dimensions@.take(i as int + 1).drop_last() =~= self.dimensions@.take(
                    i as int,
                ));
                assert(self.dimensions@.take(i as int + 1).last() == self.dimensions@[i as int]);
                assert(seq_views(test_props@) =~= spec_test_props(
                    self.dimensions@.take(i as int + 1),
                ));
            }
            i = i + 1;
        }
        proof {
            assert(self.dimensions@.take(self.dimensions@.len() as int) =~= self.dimensions@);
        }
        Test { name: self.name.clone(), dims: test_dims, meas: test_meas, props: test_props }
    }
}

/// The lines of one listed group of the displayed test matrix.
pub open spec fn spec_test_lines(items: Seq<String>) -> Seq<char>
    decreases items.len(),
{
    if items.len() == 0 {
        Seq::empty()
    } else {
        spec_test_lines(items.drop_last()) + "    "@ + items.last()@ + "\n"@
    }
}

/// The displayed test matrix.
pub open spec fn spec_test_display(t: Test) -> Seq<char> {
    "Test Cube: "@ + t.name@ + "\n"@ + "  Dimensions, Hierarchies, and Levels:\n"@
        + spec_test_lines(t.dims@) + "  Measures:\n"@ + spec_test_lines(t.meas@)
        + "  Properties:\n"@ + spec_test_lines(t.props@)
}

/// Appends the lines of one listed group.
fn push_test_lines(out: &mut String, items: &Vec<String>)
    ensures
        final(out)@ == old(out)@ + spec_test_lines(items@),
{
    let mut i: usize = 0;
    while i < items.len()
        invariant
            i <= items@.len(),
            out@ =~= old(out)@ + spec_test_lines(items@.take(i as int)),
        decreases items@.len() - i,
    {
        out.append("    ");
        out.append(items[i].as_str());
        out.append("\n");
        proof {
            assert(items@.take(i as int + 1).drop_last() =~= items@.take(i as int));
            assert(items@.take(i as int + 1).last() == items@[i as int]);
            assert(out@ =~= old(out)@ + spec_test_lines(items@.take(i as int + 1)));
        }
        i = i + 1;
    }
    proof {
        assert(items@.take(items@.len() as int) =~= items@);
    }
}

impl Test {
    /// Renders the test matrix for reporting.
    pub fn display(&self) -> (r: String)
        ensures
            r@ == spec_test_display(*self),
    {
        let mut out = String::from_str("Test Cube: ");
        out.append(self.name.as_str());
        out.append("\n");
        out.append("  Dimensions, Hierarchies, and Levels:\n");
        push_test_lines(&mut out, &self.dims);
        out.append("  Measures:\n");
        push_test_lines(&mut out, &self.meas);
        out.append("  Properties:\n");
        push_test_lines(&mut out, &self.props);
        proof {
            assert(out@ =~= spec_test_display(*self));
        }
        out
    }
}

/// The displayed line of one member: its key and its name.
pub open spec fn spec_member_line(m: Member) -> Seq<char> {
    "&"@ + spec_key_str(m.key) + ": "@ + m.name@ + "\n"@
}

impl Member {
    /// Renders the member's line.
    pub fn display(&self) -> (r: String)
        ensures
            r@ == spec_member_line(*self),
    {
        let mut out = String::from_str("&");
        let key = self.key.display();
        out.append(key.as_str());
        out.append(": ");
        out.append(self.name.as_str());
        out.append("\n");
        out
    }
}

/// The lines of the given members, in order.
pub open spec fn spec_member_lines(ms: Seq<Member>) -> Seq<char>
    decreases ms.len(),
{
    if ms.len() == 0 {
        Seq::empty()
    } else {
        spec_member_lines(ms.drop_last()) + spec_member_line(ms.last())
    }
}

/// The displayed member listing of a level.
pub open spec fn spec_members_display(m: Members) -> Seq<char> {
    "Members of Level "@ + m.name@ + ":\n"@ + spec_member_lines(m.members@)
}

impl Members {
    /// Renders the member listing for reporting.
    pub fn display(&self) -> (r: String)
        ensures
            r@ == spec_members_display(*self),
    {
        let mut out = String::from_str("Members of Level ");
        out.append(self.name.as_str());
        out.append(":\n");
        let ghost mid = out@;
        let mut i: usize = 0;
        while i < self.members.len()
            invariant
                i <= self.members@.len(),
                mid == "Members of Level "@ + self.name@ + ":\n"@,
                out@ =~= mid + spec_member_lines(self.members@.take(i as int)),
            decreases self.members@.len() - i,
        {
            let line = self.members[i].display();
            out.append(line.as_str());
            proof {
                assert(self.members@.take(i as int + 1).drop_last() =~= self.members@.take(
                    i as int,
                ));
                assert(self.members@.take(i as int + 1).last() == self.members@[i as int]);
                assert(out@ =~= mid + spec_member_lines(self.members@.take(i as int + 1)));
            }
            i = i + 1;
        }
        proof {
            assert(self.members@.take(self.members@.len() as int) =~= self.members@);
        }
        out
    }
}

} // verus!
