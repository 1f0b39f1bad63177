//! The crate-wide properties of the emitters, stated and proved over
//! the same spec functions their contracts use.

use vstd::prelude::*;

use crate::general::{
    any_foreign, boxed_lines, bracket_parent_line, default_block, filtered_parents,
    first_default_candidate, gate_negative, gate_positive, import_entry_lines, import_line,
    is_default_candidate, object_block, object_head, opt_lines, uses_lines,
};
use crate::model::{Env, FunctionInfo, ImportEntry, StatusedTypeId};
use crate::text::join_with;
use crate::version::{version_gt, Version};

verus! {

/// The positive gate is absent iff no version is supplied or the
/// version does not exceed the baseline; the negative gate is present
/// iff a version is supplied, independent of the baseline. The
/// asymmetry is deliberate.
pub proof fn lemma_gate_asymmetry(
    baseline: Version,
    version: Option<Version>,
    commented: bool,
    indent: nat,
)
    ensures
        gate_positive(baseline, version, commented, indent) is Some <==> (version is Some
            && version_gt(version.unwrap(), baseline)),
        gate_negative(version, commented, indent) is Some <==> version is Some,
{
}

/// A line is an import line iff it begins with `use `.
pub open spec fn is_import_line(l: Seq<char>) -> bool {
    l.len() >= 4 && l.subrange(0, 4) == "use "@
}

/// The import lines the emitter owes a given entry sequence, in order.
pub open spec fn import_lines_of(env: Env, entries: Seq<ImportEntry>) -> Seq<Seq<char>> {
    entries.map_values(|e: ImportEntry| import_line(env.glib_is_main, e.name@))
}

/// The import lines among an emitted line sequence, in order.
pub open spec fn only_import_lines(lines: Seq<Seq<char>>) -> Seq<Seq<char>> {
    lines.filter(|l: Seq<char>| is_import_line(l))
}

proof fn lemma_only_import_distributes(a: Seq<Seq<char>>, b: Seq<Seq<char>>)
    ensures
        only_import_lines(a + b) == only_import_lines(a) + only_import_lines(b),
    decreases b.len(),
{
    reveal(Seq::filter);
    if b.len() == 0 {
        assert(a + b =~= a);
        assert(only_import_lines(b) =~= Seq::<Seq<char>>::empty());
        assert(only_import_lines(a) + only_import_lines(b) =~= only_import_lines(a));
    } else {
        lemma_only_import_distributes(a, b.drop_last());
        assert((a + b).drop_last() =~= a + b.drop_last());
        assert((a + b).last() == b.last());
        if is_import_line(b.last()) {
            assert(only_import_lines(a + b) =~= only_import_lines(a) + only_import_lines(b));
        } else {
            assert(only_import_lines(a + b) =~= only_import_lines(a) + only_import_lines(b));
        }
    }
}

proof fn lemma_only_import_singleton(l: Seq<char>)
    ensures
        only_import_lines(seq![l]) == (if is_import_line(l) {
            seq![l]
        } else {
            Seq::<Seq<char>>::empty()
        }),
{
    reveal(Seq::filter);
    assert(seq![l].drop_last() =~= Seq::<Seq<char>>::empty());
    assert(seq![l].last() == l);
    assert(only_import_lines(Seq::<Seq<char>>::empty()) =~= Seq::<Seq<char>>::empty());
    if is_import_line(l) {
        assert(only_import_lines(seq![l]) =~= seq![l]);
    } else {
        assert(only_import_lines(seq![l]) =~= Seq::<Seq<char>>::empty());
    }
}

proof fn lemma_import_line_is_import(glib_is_main: bool, name: Seq<char>)
    ensures
        is_import_line(import_line(glib_is_main, name)),
{
    reveal_strlit("use ");
    reveal_strlit("use ffi as ");
    reveal_strlit(";");
    let l = import_line(glib_is_main, name);
    if glib_is_main && name == "glib_ffi"@ {
        assert(l.subrange(0, 4) =~= "use "@);
    } else {
        assert(l.subrange(0, 4) =~= "use "@);
    }
}

proof fn lemma_gate_line_is_no_import(env: Env, e: ImportEntry)
    ensures
        ({
            let g = gate_positive(env.config.min_cfg_version, e.version, false, 0);
            g is Some ==> !is_import_line(g.unwrap())
        }),
{
    reveal_strlit("use ");
    reveal_strlit("#[cfg(any(");
    let g = gate_positive(env.config.min_cfg_version, e.version, false, 0);
    if g is Some {
        let l = g.unwrap();
        assert(l[0] == '#');
        if is_import_line(l) {
            assert(l.subrange(0, 4)[0] == l[0]);
            assert(l[0] == 'u');
        }
    }
}

proof fn lemma_entry_lines_import(env: Env, e: ImportEntry)
    ensures
        only_import_lines(import_entry_lines(env, e)) == seq![
            import_line(env.glib_is_main, e.name@),
        ],
{
    let g = gate_positive(env.config.min_cfg_version, e.version, false, 0);
    let il = import_line(env.glib_is_main, e.name@);
    lemma_import_line_is_import(env.glib_is_main, e.name@);
    lemma_gate_line_is_no_import(env, e);
    lemma_only_import_distributes(opt_lines(g), seq![il]);
    lemma_only_import_singleton(il);
    match g {
        Some(l) => {
            lemma_only_import_singleton(l);
            assert(only_import_lines(import_entry_lines(env, e)) =~= seq![il]);
        },
        None => {
            reveal(Seq::filter);
            assert(only_import_lines(opt_lines(g)) =~= Seq::<Seq<char>>::empty());
            assert(only_import_lines(import_entry_lines(env, e)) =~= seq![il]);
        },
    }
}

/// For every import set, the emitted import lines are exactly one per
/// entry, in insertion order; in particular their number equals the
/// number of entries.
#[verifier::rlimit(60)]
pub proof fn lemma_uses_import_lines(env: Env, entries: Seq<ImportEntry>)
    ensures
        only_import_lines(uses_lines(env, entries)) == import_lines_of(env, entries),
        only_import_lines(uses_lines(env, entries)).len() == entries.len(),
    decreases entries.len(),
{
    if entries.len() == 0 {
        reveal(Seq::filter);
        reveal_strlit("use ");
        let empty_line = Seq::<char>::empty();
        assert(!is_import_line(empty_line));
        lemma_only_import_singleton(empty_line);
        assert(uses_lines(env, entries) == seq![empty_line]);
        assert(only_import_lines(uses_lines(env, entries)) =~= Seq::<Seq<char>>::empty());
        assert(import_lines_of(env, entries) =~= Seq::<Seq<char>>::empty());
    } else {
        let head = entries.drop_last();
        let e = entries.last();
        lemma_uses_import_lines(env, head);
        lemma_only_import_distributes(uses_lines(env, head), import_entry_lines(env, e));
        lemma_entry_lines_import(env, e);
        assert(head.push(e) =~= entries);
        assert(import_lines_of(env, entries) =~~= import_lines_of(env, head).push(
            import_line(env.glib_is_main, e.name@),
        ));
        assert(only_import_lines(uses_lines(env, entries)) =~~= import_lines_of(env, entries));
    }
}

/// For every owned-object input: an empty filtered supertype list gives
/// the single-line declaration with no inheritance clause; one or more
/// entries with at least one foreign among them give the bracketed
/// list-per-line shape, one line per entry — even when only one of
/// several entries is foreign; one or more entries, all local, give the
/// single-line joined shape.
pub proof fn lemma_object_block_shapes(
    name: Seq<char>,
    glib_name: Seq<char>,
    class: Option<Seq<char>>,
    glib_func_name: Seq<char>,
    parents: Seq<StatusedTypeId>,
)
    ensures
        ({
            let f = filtered_parents(parents);
            let rendered = crate::general::rendered_parents(f);
            let head = object_head(name, glib_name, class);
            let block = object_block(name, glib_name, class, glib_func_name, parents);
            &&& f.len() == 0 ==> block.len() == 8 && block[2] == head + ";"@
            &&& f.len() > 0 && any_foreign(f) ==> block.len() == f.len() + 9 && block[2] == head
                + ": ["@ && (forall|i: int|
                0 <= i < f.len() ==> block[i + 3] == bracket_parent_line(rendered[i])) && block[
                f.len() as int + 3
            ] == "\t];"@
            &&& f.len() > 0 && !any_foreign(f) ==> block.len() == 8 && block[2] == head + ": "@
                + join_with(rendered, ", "@) + ";"@
        }),
{
    let f = filtered_parents(parents);
    let rendered = crate::general::rendered_parents(f);
    let block = object_block(name, glib_name, class, glib_func_name, parents);
    assert(rendered.len() == f.len());
    if f.len() > 0 && any_foreign(f) {
        assert(forall|i: int|
            0 <= i < f.len() ==> block[i + 3] == bracket_parent_line(rendered[i]));
    }
}

/// A line is the type-descriptor mapping iff it begins with the
/// `get_type` key of the mapping block.
pub open spec fn is_get_type_line(l: Seq<char>) -> bool {
    l.len() >= 10 && l.subrange(0, 10) == "\t\tget_type"@
}

/// For every boxed-value input without a type accessor: the block holds
/// exactly the copy and free mapping lines and no type-descriptor line.
pub proof fn lemma_boxed_without_accessor(
    name: Seq<char>,
    glib_name: Seq<char>,
    copy_fn: Seq<char>,
    free_fn: Seq<char>,
)
    ensures
        ({
            let b = boxed_lines(name, glib_name, copy_fn, free_fn, None);
            &&& b.len() == 9
            &&& b[5] == "\t\tcopy => |ptr| ffi::"@ + copy_fn + "(mut_override(ptr)),"@
            &&& b[6] == "\t\tfree => |ptr| ffi::"@ + free_fn + "(ptr),"@
            &&& forall|i: int| 0 <= i < b.len() ==> !is_get_type_line(b[i])
        }),
{
    reveal_strlit("\t\tget_type");
    reveal_strlit("glib_wrapper! {");
    reveal_strlit("\tpub struct ");
    reveal_strlit("\tmatch fn {");
    reveal_strlit("\t\tcopy => |ptr| ffi::");
    reveal_strlit("\t\tfree => |ptr| ffi::");
    reveal_strlit("\t}");
    reveal_strlit("}");
    let b = boxed_lines(name, glib_name, copy_fn, free_fn, None);
    assert forall|i: int| 0 <= i < b.len() implies !is_get_type_line(b[i]) by {
        let l = b[i];
        if is_get_type_line(l) {
            assert(l.subrange(0, 10) == "\t\tget_type"@);
            assert(l.subrange(0, 10)[0] == l[0]);
            assert(l.subrange(0, 10)[1] == l[1]);
            assert(l.subrange(0, 10)[2] == l[2]);
            assert("\t\tget_type"@[0] == '\t');
            assert("\t\tget_type"@[1] == '\t');
            assert("\t\tget_type"@[2] == 'g');
            if i == 0 || i == 3 {
                assert(l.len() == 0);
            } else if i == 1 {
                assert(l[0] == 'g');
            } else if i == 2 {
                assert(l[1] == 'p');
            } else if i == 4 {
                assert(l[1] == 'm');
            } else if i == 5 {
                assert(l[2] == 'c');
            } else if i == 6 {
                assert(l[2] == 'f');
            } else if i == 7 {
                assert(l.len() == 2);
                assert(l[1] == '}');
            } else {
                assert(l.len() == 1);
            }
        }
    }
}

/// For every constructor list: if no entry qualifies, nothing is
/// emitted; the scan is first-match-wins in list order.
pub proof fn lemma_default_inference_none(env: Env, name: Seq<char>, fs: Seq<FunctionInfo>)
    requires
        forall|i: int| 0 <= i < fs.len() ==> !is_default_candidate(fs[i]),
    ensures
        first_default_candidate(fs) is None,
        default_block(env, name, fs) == Seq::<Seq<char>>::empty(),
{
    crate::general::lemma_first_candidate_at(fs, fs.len() as int);
}

/// If entry `i` qualifies and no earlier entry does, entry `i` is the
/// one used: the block is gated on that entry's minimum version, and
/// later qualifying entries are never examined.
pub proof fn lemma_default_inference_first_match(
    env: Env,
    name: Seq<char>,
    fs: Seq<FunctionInfo>,
    i: int,
)
    requires
        0 <= i < fs.len(),
        is_default_candidate(fs[i]),
        forall|j: int| 0 <= j < i ==> !is_default_candidate(fs[j]),
    ensures
        first_default_candidate(fs) == Some(fs[i]),
        default_block(env, name, fs) == seq![Seq::<char>::empty()] + opt_lines(
            gate_positive(env.config.min_cfg_version, fs[i].version, false, 0),
        ) + seq![
            "impl Default for "@ + name + " {"@,
            "    fn default() -> Self {"@,
            "        Self::new()"@,
            "    }"@,
            "}"@,
        ],
{
    crate::general::lemma_first_candidate_at(fs, i);
}

} // verus!
