//! The emitters: conditional gates, the provenance header, the import
//! list, the three wrapper-declaration shapes and default-constructor
//! inference. Every public function states exactly which lines it
//! appends to the sink.

use vstd::prelude::*;
use vstd::string::StringExecFns;

use crate::model::{Config, Env, FunctionInfo, ImportEntry, Imports, ParentOrigin, StatusedTypeId};
use crate::sink::Sink;
use crate::text::{join_with, tabs, tabs_string};
use crate::version::{cfg_of_version, version_gt, Version};

verus! {

/// The inert-rendering prefix: `//` for a documentation-only gate,
/// nothing for an active one.
pub open spec fn comment_prefix(commented: bool) -> Seq<char> {
    if commented {
        "//"@
    } else {
        Seq::<char>::empty()
    }
}

/// A gate line over an arbitrary condition expression `cond`.
pub open spec fn cfg_gate_line(cond: Seq<char>, commented: bool, indent: nat) -> Seq<char> {
    tabs(indent) + comment_prefix(commented) + "#[cfg(any("@ + cond + ", feature = \"dox\"))]"@
}

/// The positive version gate: absent when no version is supplied or the
/// version does not exceed the baseline (the configured minimum already
/// guarantees the code path is live), otherwise one gate line keyed on
/// the version's feature expression.
pub open spec fn gate_positive(
    baseline: Version,
    version: Option<Version>,
    commented: bool,
    indent: nat,
) -> Option<Seq<char>> {
    match version {
        Some(v) => if version_gt(v, baseline) {
            Some(cfg_gate_line(cfg_of_version(v), commented, indent))
        } else {
            None
        },
        None => None,
    }
}

/// A negated gate line: compiled only when the version condition does
/// not hold.
pub open spec fn negative_gate_line(v: Version, commented: bool, indent: nat) -> Seq<char> {
    tabs(indent) + comment_prefix(commented) + "#[cfg(any(not("@ + cfg_of_version(v)
        + "), feature = \"dox\"))]"@
}

/// The negative version gate: present whenever a version is supplied,
/// deliberately not filtered by the baseline. It disables legacy code
/// paths valid only strictly below a cutoff, a need independent of the
/// baseline optimization applied to the positive form.
pub open spec fn gate_negative(version: Option<Version>, commented: bool, indent: nat) -> Option<
    Seq<char>,
> {
    match version {
        Some(v) => Some(negative_gate_line(v, commented, indent)),
        None => None,
    }
}

/// A gate keyed on an opaque condition expression: every present
/// condition gets a line; the baseline plays no part here.
pub open spec fn gate_cfg(cond: Option<Seq<char>>, commented: bool, indent: nat) -> Option<
    Seq<char>,
> {
    match cond {
        Some(c) => Some(cfg_gate_line(c, commented, indent)),
        None => None,
    }
}

/// Zero or one line, as a line sequence.
pub open spec fn opt_lines(o: Option<Seq<char>>) -> Seq<Seq<char>> {
    match o {
        Some(l) => seq![l],
        None => Seq::<Seq<char>>::empty(),
    }
}

/// The view of an optional string.
pub open spec fn opt_str_view(o: Option<String>) -> Option<Seq<char>> {
    match o {
        Some(s) => Some(s@),
        None => None,
    }
}

fn build_positive_gate_line(cond: &str, commented: bool, indent: usize) -> (r: String)
    ensures
        r@ == cfg_gate_line(cond@, commented, indent as nat),
{
    let mut s = tabs_string(indent);
    if commented {
        s.append("//");
    }
    s.append("#[cfg(any(");
    s.append(cond);
    s.append(", feature = \"dox\"))]");
    proof {
        assert(s@ =~= cfg_gate_line(cond@, commented, indent as nat));
    }
    s
}

/// Renders the positive version gate, or nothing when no gate is
/// required: the version is absent or does not exceed the baseline.
pub fn version_condition_string(
    env: &Env,
    version: Option<Version>,
    commented: bool,
    indent: usize,
) -> (r: Option<String>)
    ensures
        ({
            let g = gate_positive(env.config.min_cfg_version, version, commented, indent as nat);
            match r {
                Some(s) => g is Some && s@ == g.unwrap(),
                None => g is None,
            }
        }),
{
    match version {
        Some(v) => {
            if v.gt(&env.config.min_cfg_version) {
                let cond = v.to_cfg();
                Some(build_positive_gate_line(cond.as_str(), commented, indent))
            } else {
                None
            }
        },
        None => None,
    }
}

/// Writes the positive version gate line when one is required.
pub fn version_condition(
    w: &mut Sink,
    env: &Env,
    version: Option<Version>,
    commented: bool,
    indent: usize,
)
    ensures
        final(w)@ == old(w)@ + opt_lines(
            gate_positive(env.config.min_cfg_version, version, commented, indent as nat),
        ),
{
    let line = version_condition_string(env, version, commented, indent);
    match line {
        Some(s) => {
            w.write_line(s);
        },
        None => {},
    }
    proof {
        assert(final(w)@ =~~= old(w)@ + opt_lines(
            gate_positive(env.config.min_cfg_version, version, commented, indent as nat),
        ));
    }
}

/// Writes the negated version gate line whenever a version is supplied,
/// regardless of the baseline.
pub fn not_version_condition(w: &mut Sink, version: Option<Version>, commented: bool, indent: usize)
    ensures
        final(w)@ == old(w)@ + opt_lines(gate_negative(version, commented, indent as nat)),
{
    match version {
        Some(v) => {
            let mut s = tabs_string(indent);
            if commented {
                s.append("//");
            }
            s.append("#[cfg(any(not(");
            let cond = v.to_cfg();
            s.append(cond.as_str());
            s.append("), feature = \"dox\"))]");
            proof {
                assert(s@ =~= negative_gate_line(v, commented, indent as nat));
            }
            w.write_line(s);
        },
        None => {},
    }
    proof {
        assert(final(w)@ =~~= old(w)@ + opt_lines(
            gate_negative(version, commented, indent as nat),
        ));
    }
}

/// Renders a gate keyed on an opaque condition expression, or nothing
/// without one.
pub fn cfg_condition_string(cfg_condition: &Option<String>, commented: bool, indent: usize) -> (r:
    Option<String>)
    ensures
        ({
            let g = gate_cfg(opt_str_view(*cfg_condition), commented, indent as nat);
            match r {
                Some(s) => g is Some && s@ == g.unwrap(),
                None => g is None,
            }
        }),
{
    match cfg_condition {
        Some(c) => Some(build_positive_gate_line(c.as_str(), commented, indent)),
        None => None,
    }
}

/// Writes the opaque-condition gate line when a condition is supplied.
pub fn cfg_condition(w: &mut Sink, cfg_condition: &Option<String>, commented: bool, indent: usize)
    ensures
        final(w)@ == old(w)@ + opt_lines(
            gate_cfg(opt_str_view(*cfg_condition), commented, indent as nat),
        ),
{
    let line = cfg_condition_string(cfg_condition, commented, indent);
    match line {
        Some(s) => {
            w.write_line(s);
        },
        None => {},
    }
    proof {
        assert(final(w)@ =~~= old(w)@ + opt_lines(
            gate_cfg(opt_str_view(*cfg_condition), commented, indent as nat),
        ));
    }
}

/// The hidden-from-documentation marker line.
pub open spec fn doc_hidden_line(prefix: Seq<char>, indent: nat) -> Seq<char> {
    tabs(indent) + prefix + "#[doc(hidden)]"@
}

/// Writes the hidden-from-documentation marker iff `doc_hidden` is set.
pub fn doc_hidden(w: &mut Sink, doc_hidden: bool, comment_prefix: &str, indent: usize)
    ensures
        final(w)@ == old(w)@ + (if doc_hidden {
            seq![doc_hidden_line(comment_prefix@, indent as nat)]
        } else {
            Seq::<Seq<char>>::empty()
        }),
{
    if doc_hidden {
        let mut s = tabs_string(indent);
        s.append(comment_prefix);
        s.append("#[doc(hidden)]");
        proof {
            assert(s@ =~= doc_hidden_line(comment_prefix@, indent as nat));
        }
        w.write_line(s);
    }
    proof {
        assert(final(w)@ =~~= old(w)@ + (if doc_hidden {
            seq![doc_hidden_line(comment_prefix@, indent as nat)]
        } else {
            Seq::<Seq<char>>::empty()
        }));
    }
}

/// Writes each given string as one line, in order.
pub fn write_vec(w: &mut Sink, v: &Vec<String>)
    ensures
        final(w)@ == old(w)@ + v.deep_view(),
{
    let n = v.len();
    let mut i: usize = 0;
    while i < n
        invariant
            n == v.len(),
            i <= n,
            w@ == old(w)@ + v.deep_view().take(i as int),
        decreases n - i,
    {
        w.write_line(v[i].clone());
        proof {
            assert(w@ =~~= old(w)@ + v.deep_view().take(i + 1));
        }
        i = i + 1;
    }
    proof {
        assert(v.deep_view().take(n as int) =~~= v.deep_view());
    }
}

/// The version of this generator, interpolated into the provenance
/// header.
pub open spec fn generator_version() -> Seq<char> {
    "0.6.0"@
}

/// The two fixed provenance-header lines: the banner naming the
/// generator's version and the input metadata-set version, then the
/// edit warning.
pub open spec fn header_lines(girs_version: Seq<char>) -> Seq<Seq<char>> {
    seq![
        "// This file was generated by gir ("@ + generator_version() + ") from gir-files ("@ + girs_version + ")"@,
        "// DO NOT EDIT"@,
    ]
}

/// Writes the two provenance-header lines.
pub fn start_comments(w: &mut Sink, conf: &Config)
    ensures
        final(w)@ == old(w)@ + header_lines(conf.girs_version@),
{
    let mut s = String::from_str("// This file was generated by gir (");
    s.append("0.6.0");
    s.append(") from gir-files (");
    s.append(conf.girs_version.as_str());
    s.append(")");
    proof {
        assert(s@ =~= header_lines(conf.girs_version@)[0]);
    }
    w.write_line(s);
    w.write_line(String::from_str("// DO NOT EDIT"));
    proof {
        assert(final(w)@ =~~= old(w)@ + header_lines(conf.girs_version@));
    }
}

/// The import line for one entry. When the primary namespace itself
/// owns the well-known foreign-binding module `glib_ffi`, that import is
/// rewritten to alias the unit's own native-binding module, avoiding a
/// self-import cycle; no other substitution exists.
pub open spec fn import_line(glib_is_main: bool, name: Seq<char>) -> Seq<char> {
    if glib_is_main && name == "glib_ffi"@ {
        "use ffi as "@ + name + ";"@
    } else {
        "use "@ + name + ";"@
    }
}

/// The lines one import entry contributes: its positive version gate,
/// if applicable, then the import line itself.
pub open spec fn import_entry_lines(env: Env, e: ImportEntry) -> Seq<Seq<char>> {
    opt_lines(gate_positive(env.config.min_cfg_version, e.version, false, 0)) + seq![
        import_line(env.glib_is_main, e.name@),
    ]
}

/// Everything `uses` emits: one leading blank line, then each entry's
/// lines in insertion order.
pub open spec fn uses_lines(env: Env, entries: Seq<ImportEntry>) -> Seq<Seq<char>>
    decreases entries.len(),
{
    if entries.len() == 0 {
        seq![Seq::<char>::empty()]
    } else {
        uses_lines(env, entries.drop_last()) + import_entry_lines(env, entries.last())
    }
}

/// Writes a blank line, then one gated import line per entry, in
/// insertion order.
pub fn uses(w: &mut Sink, env: &Env, imports: &Imports)
    ensures
        final(w)@ == old(w)@ + uses_lines(*env, imports@),
{
    w.write_line(String::new());
    proof {
        assert(imports@.take(0) =~= Seq::<ImportEntry>::empty());
        assert(w@ =~~= old(w)@ + uses_lines(*env, imports@.take(0)));
    }
    let glib_key = String::from_str("glib_ffi");
    let n = imports.len();
    let mut i: usize = 0;
    while i < n
        invariant
            n == imports@.len(),
            i <= n,
            glib_key@ == "glib_ffi"@,
            w@ == old(w)@ + uses_lines(*env, imports@.take(i as int)),
        decreases n - i,
    {
        let ghost mid = w@;
        let e = imports.get(i);
        version_condition(w, env, e.version, false, 0);
        let line = if env.glib_is_main && e.name == glib_key {
            let mut s = String::from_str("use ffi as ");
            s.append(e.name.as_str());
            s.append(";");
            s
        } else {
            let mut s = String::from_str("use ");
            s.append(e.name.as_str());
            s.append(";");
            s
        };
        proof {
            assert(line@ =~= import_line(env.glib_is_main, e.name@));
        }
        w.write_line(line);
        proof {
            assert(w@ =~~= mid + import_entry_lines(*env, imports@[i as int]));
            assert(imports@.take(i + 1).drop_last() =~= imports@.take(i as int));
            assert(imports@.take(i + 1).last() == imports@[i as int]);
            assert(w@ =~~= old(w)@ + uses_lines(*env, imports@.take(i + 1)));
        }
        i = i + 1;
    }
    proof {
        assert(imports@.take(n as int) =~= imports@);
    }
}

fn concat3(a: &str, b: &str, c: &str) -> (r: String)
    ensures
        r@ == a@ + b@ + c@,
{
    let mut s = String::from_str(a);
    s.append(b);
    s.append(c);
    proof {
        assert(s@ =~= a@ + b@ + c@);
    }
    s
}

/// The runtime-type-accessor mapping line.
pub open spec fn get_type_line(func: Seq<char>) -> Seq<char> {
    "\t\tget_type => || ffi::"@ + func + "(),"@
}

/// The optional type-descriptor mapping: one line when an accessor
/// function name was supplied, none otherwise.
pub open spec fn opt_get_type_lines(f: Option<Seq<char>>) -> Seq<Seq<char>> {
    match f {
        Some(g) => seq![get_type_line(g)],
        None => Seq::<Seq<char>>::empty(),
    }
}

/// The boxed-value declaration block: a single-line handle declaration,
/// then a mapping with a copy line (source pointer coerced to mutable),
/// a free line, and the type-descriptor line only when an accessor was
/// supplied.
pub open spec fn boxed_lines(
    name: Seq<char>,
    glib_name: Seq<char>,
    copy_fn: Seq<char>,
    free_fn: Seq<char>,
    get_type_fn: Option<Seq<char>>,
) -> Seq<Seq<char>> {
    seq![
        Seq::<char>::empty(),
        "glib_wrapper! {"@,
        "\tpub struct "@ + name + "(Boxed<ffi::"@ + glib_name + ">);"@,
        Seq::<char>::empty(),
        "\tmatch fn {"@,
        "\t\tcopy => |ptr| ffi::"@ + copy_fn + "(mut_override(ptr)),"@,
        "\t\tfree => |ptr| ffi::"@ + free_fn + "(ptr),"@,
    ] + opt_get_type_lines(get_type_fn) + seq!["\t}"@, "}"@]
}

fn write_match_fn_tail(w: &mut Sink, get_type_fn: &Option<String>)
    ensures
        final(w)@ == old(w)@ + opt_get_type_lines(opt_str_view(*get_type_fn)) + seq![
            "\t}"@,
            "}"@,
        ],
{
    match get_type_fn {
        Some(f) => {
            w.write_line(concat3("\t\tget_type => || ffi::", f.as_str(), "(),"));
        },
        None => {},
    }
    w.write_line(String::from_str("\t}"));
    w.write_line(String::from_str("}"));
    proof {
        assert(final(w)@ =~~= old(w)@ + opt_get_type_lines(opt_str_view(*get_type_fn)) + seq![
            "\t}"@,
            "}"@,
        ]);
    }
}

/// Writes the boxed-value declaration block.
pub fn define_boxed_type(
    w: &mut Sink,
    name: &str,
    glib_name: &str,
    copy_fn: &str,
    free_fn: &str,
    get_type_fn: &Option<String>,
)
    ensures
        final(w)@ == old(w)@ + boxed_lines(
            name@,
            glib_name@,
            copy_fn@,
            free_fn@,
            opt_str_view(*get_type_fn),
        ),
{
    w.write_line(String::new());
    w.write_line(String::from_str("glib_wrapper! {"));
    let mut decl = concat3("\tpub struct ", name, "(Boxed<ffi::");
    decl.append(glib_name);
    decl.append(">);");
    w.write_line(decl);
    w.write_line(String::new());
    w.write_line(String::from_str("\tmatch fn {"));
    w.write_line(concat3("\t\tcopy => |ptr| ffi::", copy_fn, "(mut_override(ptr)),"));
    w.write_line(concat3("\t\tfree => |ptr| ffi::", free_fn, "(ptr),"));
    write_match_fn_tail(w, get_type_fn);
    proof {
        assert(final(w)@ =~~= old(w)@ + boxed_lines(
            name@,
            glib_name@,
            copy_fn@,
            free_fn@,
            opt_str_view(*get_type_fn),
        ));
    }
}

/// The shared-value declaration block: identical in shape to the boxed
/// block, but its two required operations are retain (`ref`) and
/// release (`unref`) instead of copy and free.
pub open spec fn shared_lines(
    name: Seq<char>,
    glib_name: Seq<char>,
    ref_fn: Seq<char>,
    unref_fn: Seq<char>,
    get_type_fn: Option<Seq<char>>,
) -> Seq<Seq<char>> {
    seq![
        Seq::<char>::empty(),
        "glib_wrapper! {"@,
        "\tpub struct "@ + name + "(Shared<ffi::"@ + glib_name + ">);"@,
        Seq::<char>::empty(),
        "\tmatch fn {"@,
        "\t\tref => |ptr| ffi::"@ + ref_fn + "(ptr),"@,
        "\t\tunref => |ptr| ffi::"@ + unref_fn + "(ptr),"@,
    ] + opt_get_type_lines(get_type_fn) + seq!["\t}"@, "}"@]
}

/// Writes the shared-value declaration block.
pub fn define_shared_type(
    w: &mut Sink,
    name: &str,
    glib_name: &str,
    ref_fn: &str,
    unref_fn: &str,
    get_type_fn: &Option<String>,
)
    ensures
        final(w)@ == old(w)@ + shared_lines(
            name@,
            glib_name@,
            ref_fn@,
            unref_fn@,
            opt_str_view(*get_type_fn),
        ),
{
    w.write_line(String::new());
    w.write_line(String::from_str("glib_wrapper! {"));
    let mut decl = concat3("\tpub struct ", name, "(Shared<ffi::");
    decl.append(glib_name);
    decl.append(">);");
    w.write_line(decl);
    w.write_line(String::new());
    w.write_line(String::from_str("\tmatch fn {"));
    w.write_line(concat3("\t\tref => |ptr| ffi::", ref_fn, "(ptr),"));
    w.write_line(concat3("\t\tunref => |ptr| ffi::", unref_fn, "(ptr),"));
    write_match_fn_tail(w, get_type_fn);
    proof {
        assert(final(w)@ =~~= old(w)@ + shared_lines(
            name@,
            glib_name@,
            ref_fn@,
            unref_fn@,
            opt_str_view(*get_type_fn),
        ));
    }
}

/// True for supertype entries that take part in shape decisions.
pub open spec fn filtered_parents(ps: Seq<StatusedTypeId>) -> Seq<StatusedTypeId> {
    ps.filter(|p: StatusedTypeId| !p.ignored)
}

/// Whether a supertype lives outside the primary namespace.
pub open spec fn is_foreign(p: StatusedTypeId) -> bool {
    p.origin is Foreign
}

/// Whether at least one entry is foreign.
pub open spec fn any_foreign(ps: Seq<StatusedTypeId>) -> bool {
    exists|i: int| 0 <= i < ps.len() && is_foreign(ps[i])
}

/// How one supertype renders: a bare name for a local entry; for a
/// foreign entry, its owning module, name and that module's
/// native-binding alias with the native type name.
pub open spec fn rendered_parent(p: StatusedTypeId) -> Seq<char> {
    match p.origin {
        ParentOrigin::Main => p.name@,
        ParentOrigin::Foreign { crate_name, ffi_name } => crate_name@ + "::"@ + p.name@ + " => "@
            + crate_name@ + "_ffi::"@ + ffi_name@,
    }
}

/// The optional secondary class-struct reference inside the handle
/// declaration.
pub open spec fn class_suffix(class: Option<Seq<char>>) -> Seq<char> {
    match class {
        Some(c) => ", ffi::"@ + c,
        None => Seq::<char>::empty(),
    }
}

/// The common prefix of every owned-object handle declaration line.
pub open spec fn object_head(name: Seq<char>, glib_name: Seq<char>, class: Option<Seq<char>>) -> Seq<
    char,
> {
    "\tpub struct "@ + name + "(Object<ffi::"@ + glib_name + class_suffix(class) + ">)"@
}

/// One line of the bracketed multi-line supertype list.
pub open spec fn bracket_parent_line(r: Seq<char>) -> Seq<char> {
    "\t\t"@ + r + ","@
}

/// The rendered forms of a supertype list, in order.
pub open spec fn rendered_parents(ps: Seq<StatusedTypeId>) -> Seq<Seq<char>> {
    ps.map_values(|p: StatusedTypeId| rendered_parent(p))
}

/// The bracketed list-per-line rendering of `rs`.
pub open spec fn bracket_lines(rs: Seq<Seq<char>>) -> Seq<Seq<char>> {
    rs.map_values(|r: Seq<char>| bracket_parent_line(r))
}

/// The three mutually exclusive handle-declaration shapes. `rendered`
/// is the filtered supertype list, already rendered; `foreign` is true
/// iff at least one of those supertypes is foreign. One foreign entry
/// forces every entry — local ones included — into the bracketed
/// list-per-line shape: the two shapes use incompatible separators, so
/// this tie-break is deliberate and must not be special-cased away.
pub open spec fn object_struct_lines(
    head: Seq<char>,
    rendered: Seq<Seq<char>>,
    foreign: bool,
) -> Seq<Seq<char>> {
    if rendered.len() == 0 {
        seq![head + ";"@]
    } else if foreign {
        seq![head + ": ["@] + bracket_lines(rendered) + seq!["\t];"@]
    } else {
        seq![head + ": "@ + join_with(rendered, ", "@) + ";"@]
    }
}

/// The whole owned-object declaration block.
pub open spec fn object_block(
    name: Seq<char>,
    glib_name: Seq<char>,
    class: Option<Seq<char>>,
    glib_func_name: Seq<char>,
    parents: Seq<StatusedTypeId>,
) -> Seq<Seq<char>> {
    let f = filtered_parents(parents);
    seq![Seq::<char>::empty(), "glib_wrapper! {"@] + object_struct_lines(
        object_head(name, glib_name, class),
        rendered_parents(f),
        any_foreign(f),
    ) + seq![
        Seq::<char>::empty(),
        "\tmatch fn {"@,
        get_type_line(glib_func_name),
        "\t}"@,
        "}"@,
    ]
}

proof fn lemma_filtered_push(ps: Seq<StatusedTypeId>, p: StatusedTypeId)
    ensures
        filtered_parents(ps.push(p)) == (if !p.ignored {
            filtered_parents(ps).push(p)
        } else {
            filtered_parents(ps)
        }),
{
    reveal(Seq::filter);
    let s1 = ps.push(p);
    assert(s1.drop_last() =~= ps);
    assert(s1.last() == p);
}

proof fn lemma_any_foreign_push(ps: Seq<StatusedTypeId>, p: StatusedTypeId)
    ensures
        any_foreign(ps.push(p)) == (any_foreign(ps) || is_foreign(p)),
{
    let s1 = ps.push(p);
    if is_foreign(p) {
        assert(is_foreign(s1[ps.len() as int]));
    }
    if any_foreign(ps) {
        let i = choose|i: int| 0 <= i < ps.len() && is_foreign(ps[i]);
        assert(is_foreign(s1[i]));
    }
    if any_foreign(s1) && !is_foreign(p) {
        let i = choose|i: int| 0 <= i < s1.len() && is_foreign(s1[i]);
        assert(i < ps.len());
        assert(is_foreign(ps[i]));
    }
}

fn rendered_parent_string(p: &StatusedTypeId) -> (r: String)
    ensures
        r@ == rendered_parent(*p),
{
    match &p.origin {
        ParentOrigin::Main => p.name.clone(),
        ParentOrigin::Foreign { crate_name, ffi_name } => {
            let mut s = crate_name.clone();
            s.append("::");
            s.append(p.name.as_str());
            s.append(" => ");
            s.append(crate_name.as_str());
            s.append("_ffi::");
            s.append(ffi_name.as_str());
            proof {
                assert(s@ =~= rendered_parent(*p));
            }
            s
        },
    }
}

fn object_head_string(name: &str, glib_name: &str, glib_class_name: &Option<String>) -> (r: String)
    ensures
        r@ == object_head(name@, glib_name@, opt_str_view(*glib_class_name)),
{
    let mut s = concat3("\tpub struct ", name, "(Object<ffi::");
    s.append(glib_name);
    match glib_class_name {
        Some(c) => {
            s.append(", ffi::");
            s.append(c.as_str());
        },
        None => {},
    }
    s.append(">)");
    proof {
        assert(s@ =~= object_head(name@, glib_name@, opt_str_view(*glib_class_name)));
    }
    s
}

/// Writes the owned-object declaration block. Ignored supertypes are
/// filtered out first; the remaining entries and their foreign-or-local
/// classification pick one of the three declaration shapes.
pub fn define_object_type(
    w: &mut Sink,
    name: &str,
    glib_name: &str,
    glib_class_name: &Option<String>,
    glib_func_name: &str,
    parents: &Vec<StatusedTypeId>,
)
    ensures
        final(w)@ == old(w)@ + object_block(
            name@,
            glib_name@,
            opt_str_view(*glib_class_name),
            glib_func_name@,
            parents@,
        ),
{
    let ghost all = parents@;
    let mut rendered: Vec<String> = Vec::new();
    // One pre-pass computes the rendered entries and whether any kept
    // entry is foreign, before any shape decision is made.
    let mut external: bool = false;
    let n = parents.len();
    let mut i: usize = 0;
    proof {
        assert(all.take(0) =~= Seq::<StatusedTypeId>::empty());
        assert(filtered_parents(all.take(0)) =~= Seq::<StatusedTypeId>::empty());
        assert(rendered.deep_view() =~~= rendered_parents(filtered_parents(all.take(0))));
    }
    while i < n
        invariant
            n == all.len(),
            all == parents@,
            i <= n,
            rendered.deep_view() == rendered_parents(filtered_parents(all.take(i as int))),
            external == any_foreign(filtered_parents(all.take(i as int))),
        decreases n - i,
    {
        let ghost pre = filtered_parents(all.take(i as int));
        let p = &parents[i];
        if !p.ignored {
            let foreign = match &p.origin {
                ParentOrigin::Main => false,
                ParentOrigin::Foreign { .. } => true,
            };
            if foreign {
                external = true;
            }
            rendered.push(rendered_parent_string(p));
        }
        proof {
            assert(all.take(i + 1) =~= all.take(i as int).push(all[i as int]));
            lemma_filtered_push(all.take(i as int), all[i as int]);
            if !all[i as int].ignored {
                lemma_any_foreign_push(pre, all[i as int]);
                assert(rendered_parents(pre.push(all[i as int])) =~~= rendered_parents(pre).push(
                    rendered_parent(all[i as int]),
                ));
                assert(rendered.deep_view() =~~= rendered_parents(
                    filtered_parents(all.take(i + 1)),
                ));
            } else {
                assert(rendered.deep_view() =~~= rendered_parents(
                    filtered_parents(all.take(i + 1)),
                ));
            }
        }
        i = i + 1;
    }
    proof {
        assert(all.take(n as int) =~= all);
    }
    let ghost f = filtered_parents(all);
    let ghost rseq = rendered_parents(f);
    let ghost headv = object_head(name@, glib_name@, opt_str_view(*glib_class_name));

    w.write_line(String::new());
    w.write_line(String::from_str("glib_wrapper! {"));
    let ghost base = w@;
    let head = object_head_string(name, glib_name, glib_class_name);
    if rendered.len() == 0 {
        let mut line = head;
        line.append(";");
        w.write_line(line);
        proof {
            assert(rseq.len() == 0);
            assert(w@ =~~= base + object_struct_lines(headv, rseq, any_foreign(f)));
        }
    } else {
        let many: bool = external;
        if many {
            let mut open_line = head;
            open_line.append(": [");
            w.write_line(open_line);
            let ghost inner = w@;
            let m = rendered.len();
            let mut j: usize = 0;
            proof {
                assert(bracket_lines(rseq.take(0)) =~~= Seq::<Seq<char>>::empty());
            }
            while j < m
                invariant
                    m == rendered.len(),
                    j <= m,
                    rendered.deep_view() == rseq,
                    w@ == inner + bracket_lines(rseq.take(j as int)),
                decreases m - j,
            {
                let line = concat3("\t\t", rendered[j].as_str(), ",");
                proof {
                    assert(rendered[j as int]@ == rseq[j as int]);
                    assert(line@ == bracket_parent_line(rseq[j as int]));
                }
                w.write_line(line);
                proof {
                    assert(rseq.take(j + 1) =~= rseq.take(j as int).push(rseq[j as int]));
                    assert(bracket_lines(rseq.take(j + 1)) =~~= bracket_lines(
                        rseq.take(j as int),
                    ).push(bracket_parent_line(rseq[j as int])));
                    assert(w@ =~~= inner + bracket_lines(rseq.take(j + 1)));
                }
                j = j + 1;
            }
            w.write_line(String::from_str("\t];"));
            proof {
                assert(rseq.take(m as int) =~= rseq);
                assert(rseq.len() != 0);
                assert(any_foreign(f));
                assert(w@ =~~= base + object_struct_lines(headv, rseq, any_foreign(f)));
            }
        } else {
            let mut joined = String::new();
            let m = rendered.len();
            let mut j: usize = 0;
            while j < m
                invariant
                    m == rendered.len(),
                    j <= m,
                    rendered.deep_view() == rseq,
                    joined@ == join_with(rseq.take(j as int), ", "@),
                decreases m - j,
            {
                if j > 0 {
                    joined.append(", ");
                }
                joined.append(rendered[j].as_str());
                proof {
                    assert(rendered[j as int]@ == rseq[j as int]);
                    assert(rseq.take(j + 1).drop_last() =~= rseq.take(j as int));
                    assert(rseq.take(j + 1).last() == rseq[j as int]);
                    if j == 0 {
                        assert(joined@ =~= join_with(rseq.take(1), ", "@));
                    } else {
                        assert(joined@ =~= join_with(rseq.take(j + 1), ", "@));
                    }
                }
                j = j + 1;
            }
            let mut line = head;
            line.append(": ");
            line.append(joined.as_str());
            line.append(";");
            w.write_line(line);
            proof {
                assert(rseq.take(m as int) =~= rseq);
                assert(rseq.len() != 0);
                assert(!any_foreign(f));
                assert(line@ =~= headv + ": "@ + join_with(rseq, ", "@) + ";"@);
                assert(w@ =~~= base + object_struct_lines(headv, rseq, any_foreign(f)));
            }
        }
    }
    w.write_line(String::new());
    w.write_line(String::from_str("\tmatch fn {"));
    w.write_line(concat3("\t\tget_type => || ffi::", glib_func_name, "(),"));
    w.write_line(String::from_str("\t}"));
    w.write_line(String::from_str("}"));
    proof {
        assert(final(w)@ =~~= old(w)@ + object_block(
            name@,
            glib_name@,
            opt_str_view(*glib_class_name),
            glib_func_name@,
            all,
        ));
    }
}

/// A discovered function qualifies for default-value inference iff it
/// bears the constructor keyword `new`, takes no parameters and is not
/// hidden.
pub open spec fn is_default_candidate(f: FunctionInfo) -> bool {
    f.name@ == "new"@ && f.parameter_count == 0 && !f.hidden
}

/// The first qualifying entry in list order, if any; later matches are
/// never examined once the first succeeds.
pub open spec fn first_default_candidate(fs: Seq<FunctionInfo>) -> Option<FunctionInfo>
    decreases fs.len(),
{
    if fs.len() == 0 {
        None
    } else if is_default_candidate(fs[0]) {
        Some(fs[0])
    } else {
        first_default_candidate(fs.drop_first())
    }
}

/// The default-value block: nothing when no candidate qualifies;
/// otherwise a blank line, the positive version gate keyed on the
/// chosen candidate's minimum version, and the interface implementation
/// delegating to the zero-argument constructor.
pub open spec fn default_block(env: Env, name: Seq<char>, fs: Seq<FunctionInfo>) -> Seq<Seq<char>> {
    match first_default_candidate(fs) {
        Some(f) => seq![Seq::<char>::empty()] + opt_lines(
            gate_positive(env.config.min_cfg_version, f.version, false, 0),
        ) + seq![
            "impl Default for "@ + name + " {"@,
            "    fn default() -> Self {"@,
            "        Self::new()"@,
            "    }"@,
            "}"@,
        ],
        None => Seq::<Seq<char>>::empty(),
    }
}

/// If no entry before position `i` qualifies, the scan's result is
/// decided at `i`: the entry there if it qualifies and `i` is in
/// range, nothing if `i` is past the end.
pub proof fn lemma_first_candidate_at(fs: Seq<FunctionInfo>, i: int)
    requires
        0 <= i <= fs.len(),
        forall|j: int| 0 <= j < i ==> !is_default_candidate(fs[j]),
        i < fs.len() ==> is_default_candidate(fs[i]),
    ensures
        first_default_candidate(fs) == (if i < fs.len() {
            Some(fs[i])
        } else {
            None::<FunctionInfo>
        }),
    decreases i,
{
    if fs.len() == 0 {
    } else if i == 0 {
    } else {
        let rest = fs.drop_first();
        assert(forall|j: int| 0 <= j < i - 1 ==> rest[j] == fs[j + 1]);
        lemma_first_candidate_at(rest, i - 1);
    }
}

/// Scans the discovered functions in their given order and, when the
/// first qualifying zero-argument constructor is found, writes the
/// gated default-value implementation; writes nothing otherwise.
pub fn declare_default_from_new(w: &mut Sink, env: &Env, name: &str, functions: &Vec<FunctionInfo>)
    ensures
        final(w)@ == old(w)@ + default_block(*env, name@, functions@),
{
    let key = String::from_str("new");
    let n = functions.len();
    let mut i: usize = 0;
    let mut idx: usize = n;
    while i < n && idx == n
        invariant
            n == functions@.len(),
            i <= n,
            idx <= n,
            key@ == "new"@,
            forall|j: int| 0 <= j < i ==> !is_default_candidate(functions@[j]),
            idx < n ==> idx == i && is_default_candidate(functions@[idx as int]),
        decreases n - i + (if idx == n {
            1int
        } else {
            0int
        }),
    {
        let f = &functions[i];
        if !f.hidden && f.parameter_count == 0 && f.name == key {
            idx = i;
        } else {
            i = i + 1;
        }
    }
    if idx < n {
        proof {
            lemma_first_candidate_at(functions@, idx as int);
        }
        let f = &functions[idx];
        w.write_line(String::new());
        version_condition(w, env, f.version, false, 0);
        w.write_line(concat3("impl Default for ", name, " {"));
        w.write_line(String::from_str("    fn default() -> Self {"));
        w.write_line(String::from_str("        Self::new()"));
        w.write_line(String::from_str("    }"));
        w.write_line(String::from_str("}"));
        proof {
            assert(final(w)@ =~~= old(w)@ + default_block(*env, name@, functions@));
        }
    } else {
        proof {
            lemma_first_candidate_at(functions@, n as int);
            assert(final(w)@ =~~= old(w)@ + default_block(*env, name@, functions@));
        }
    }
}

} // verus!
