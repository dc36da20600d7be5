//! Properties of the schema pipeline, stated over the specifications that the
//! executable stages are proved to meet.
use crate::document::{DocObj, Node};
use crate::error::{malformed, ErrorView, InstructionProblem};
use crate::model::LicenseView;
use crate::document::{lemma_lookup_equiv, node_equiv, obj_equiv};
use crate::schema::{
    compile_spec, extends_entry_spec, extends_items_spec, extends_spec, lemma_extends_error_persists,
    lemma_using_error_persists, license_spec, maintainer_result_spec, meta_spec, schema_spec, str_list_spec,
    using_entry_spec, using_pairs_spec, using_spec,
};
use crate::table::{has_key, TableView};
use crate::text::lower_of;
use vstd::prelude::*;

verus! {

/// A document without a configuration header compiles to the missing-header
/// error and to no other.
pub proof fn lemma_missing_header(doc: DocObj)
    requires
        doc.field_obj("oof"@) is None,
    ensures
        compile_spec(doc) == ErrorView::MissingOofInstruction,
{
}

/// A document whose schema type is a string other than "system" compiles to
/// the unsupported-type error carrying exactly that string.
pub proof fn lemma_unsupported_schema_type(doc: DocObj, oof: DocObj, schema: DocObj, t: Seq<char>)
    requires
        doc.field_obj("oof"@) == Some(oof),
        oof.field_obj("schema"@) == Some(schema),
        schema.field_str("type"@) == Some(t),
        t != "system"@,
    ensures
        compile_spec(doc) == ErrorView::UnsupportedSchemaType(t),
{
}

/// A document of schema type "system" whose version is a string other than
/// "2021.08.01" compiles to the unsupported-version error for that version.
pub proof fn lemma_unsupported_schema_version(doc: DocObj, oof: DocObj, schema: DocObj, v: Seq<char>)
    requires
        doc.field_obj("oof"@) == Some(oof),
        oof.field_obj("schema"@) == Some(schema),
        schema.field_str("type"@) == Some("system"@),
        schema.field_str("version"@) == Some(v),
        v != "2021.08.01"@,
    ensures
        compile_spec(doc) == (ErrorView::UnsupportedSchemaVersion { schema_type: "system"@, requested_version: v }),
{
}

/// A metadata block with neither a maintainer nor a homepage fails on that
/// rule, whatever its license field holds; so does a document with a valid
/// schema header and such a block.
pub proof fn lemma_maintainer_or_homepage_required(doc: DocObj, oof: DocObj, meta: DocObj)
    requires
        doc.field_obj("oof"@) == Some(oof),
        oof.field_obj("meta"@) == Some(meta),
        maintainer_result_spec(meta) is Err,
        meta.field_str("homepage"@) is None,
    ensures
        meta_spec(oof) == Err::<crate::model::MetaView, ErrorView>(
            malformed("meta.maintainer"@, InstructionProblem::MaintainerOrHomepageRequired),
        ),
        schema_spec(oof) is Ok ==> compile_spec(doc) == malformed(
            "meta.maintainer"@,
            InstructionProblem::MaintainerOrHomepageRequired,
        ),
{
}

/// License classification ignores case for the reserved words (two strings
/// with the same lower-case form are classified alike as restricted or not),
/// and keeps any other string exactly as written.
pub proof fn lemma_license_classification(l1: Seq<char>, l2: Seq<char>)
    ensures
        (license_spec(l1) is Restricted) <==> (lower_of(l1) == "restricted"@ || lower_of(l1) == "proprietary"@),
        !(license_spec(l1) is Restricted) ==> license_spec(l1) == LicenseView::SPDXIdentifier(l1),
        lower_of(l1) == lower_of(l2) ==> ((license_spec(l1) is Restricted) <==> (license_spec(l2) is Restricted)),
{
}

proof fn lemma_using_prefix_ok(pairs: Seq<(String, Node)>, n: int)
    requires
        0 <= n <= pairs.len(),
        forall|j: int| 0 <= j < n ==> using_entry_spec(#[trigger] pairs[j].1) is Some,
    ensures
        using_pairs_spec(pairs.take(n)) is Ok,
    decreases n,
{
    if n > 0 {
        lemma_using_prefix_ok(pairs, n - 1);
        assert(pairs.take(n).drop_last() =~= pairs.take(n - 1));
    }
}

/// The first `using` entry that is not an object carrying a `git` string makes
/// the source table fail with the can't-determine-repo-type error for
/// `using.<name>`.
pub proof fn lemma_using_entry_without_git(doc: DocObj, using: DocObj, i: int)
    requires
        doc.field_obj("using"@) == Some(using),
        0 <= i < using.pairs@.len(),
        using.pairs@[i].1.as_obj() matches Some(c) ==> c.field_str("git"@) is None,
        forall|j: int| 0 <= j < i ==> using_entry_spec(#[trigger] using.pairs@[j].1) is Some,
    ensures
        using_spec(doc) == Err::<TableView, ErrorView>(
            malformed("using."@ + using.pairs@[i].0@, InstructionProblem::CouldNotDetermineRepoType),
        ),
{
    let pairs = using.pairs@;
    lemma_using_prefix_ok(pairs, i);
    assert(pairs.take(i + 1).drop_last() =~= pairs.take(i));
    lemma_using_error_persists(pairs, i + 1, pairs.len() as int);
    assert(pairs.take(pairs.len() as int) =~= pairs);
}

proof fn lemma_extends_prefix_ok(items: Seq<Node>, t: TableView, n: int)
    requires
        0 <= n <= items.len(),
        forall|j: int| 0 <= j < n ==> extends_entry_spec(j as nat, #[trigger] items[j], t) is Ok,
    ensures
        extends_items_spec(items.take(n), t) is Ok,
    decreases n,
{
    if n > 0 {
        lemma_extends_prefix_ok(items, t, n - 1);
        assert(items.take(n).drop_last() =~= items.take(n - 1));
        assert(items.take(n).last() == items[n - 1]);
    }
}

/// The first inheritance declaration whose `repo` names no entry of the source
/// table makes the resolver fail with the dangling-repo error for that name,
/// whatever its other fields hold.
pub proof fn lemma_extends_unknown_repo(doc: DocObj, t: TableView, items: Seq<Node>, i: int, repo: Seq<char>)
    requires
        doc.field_arr("extends"@) == Some(items),
        0 <= i < items.len(),
        items[i].as_obj() matches Some(e) && e.field_str("repo"@) == Some(repo),
        !has_key(t, repo),
        forall|j: int| 0 <= j < i ==> extends_entry_spec(j as nat, #[trigger] items[j], t) is Ok,
    ensures
        extends_spec(doc, t) == Err::<Seq<crate::model::ExtendsView>, ErrorView>(
            ErrorView::ExtendingNonExistantRepo(repo),
        ),
{
    lemma_extends_prefix_ok(items, t, i);
    assert(items.take(i + 1).drop_last() =~= items.take(i));
    assert(items.take(i + 1).last() == items[i]);
    lemma_extends_error_persists(items, t, i + 1, items.len() as int);
    assert(items.take(items.len() as int) =~= items);
}

proof fn lemma_schema_equiv(a: DocObj, b: DocObj)
    requires
        obj_equiv(a, b),
    ensures
        schema_spec(a) == schema_spec(b),
{
    lemma_lookup_equiv(a, b, "schema"@);
    if let Some(sa) = a.field_obj("schema"@) {
        let sb = b.field_obj("schema"@).unwrap();
        lemma_lookup_equiv(sa, sb, "type"@);
        lemma_lookup_equiv(sa, sb, "version"@);
    }
}

proof fn lemma_meta_equiv(a: DocObj, b: DocObj)
    requires
        obj_equiv(a, b),
    ensures
        meta_spec(a) == meta_spec(b),
{
    lemma_lookup_equiv(a, b, "meta"@);
    if let Some(ma) = a.field_obj("meta"@) {
        let mb = b.field_obj("meta"@).unwrap();
        lemma_lookup_equiv(ma, mb, "maintainer"@);
        lemma_lookup_equiv(ma, mb, "homepage"@);
        lemma_lookup_equiv(ma, mb, "license"@);
        if let Some(xa) = ma.field_obj("maintainer"@) {
            let xb = mb.field_obj("maintainer"@).unwrap();
            lemma_lookup_equiv(xa, xb, "name"@);
            lemma_lookup_equiv(xa, xb, "contact"@);
        }
        assert(maintainer_result_spec(ma) == maintainer_result_spec(mb));
    }
}

proof fn lemma_using_entry_equiv(x: Node, y: Node)
    requires
        node_equiv(x, y),
    ensures
        using_entry_spec(x) == using_entry_spec(y),
{
    if let Node::Obj(a) = x {
        let b = y.as_obj().unwrap();
        lemma_lookup_equiv(a, b, "git"@);
        lemma_lookup_equiv(a, b, "rev"@);
        lemma_lookup_equiv(a, b, "shallow"@);
        lemma_lookup_equiv(a, b, "bin"@);
    }
}

proof fn lemma_using_pairs_equiv(ps: Seq<(String, Node)>, qs: Seq<(String, Node)>)
    requires
        ps.len() == qs.len(),
        forall|i: int| 0 <= i < ps.len() ==> (#[trigger] ps[i]).0@ == qs[i].0@ && node_equiv(ps[i].1, qs[i].1),
    ensures
        using_pairs_spec(ps) == using_pairs_spec(qs),
    decreases ps.len(),
{
    if ps.len() > 0 {
        let (pt, qt) = (ps.drop_last(), qs.drop_last());
        assert forall|i: int| 0 <= i < pt.len() implies (#[trigger] pt[i]).0@ == qt[i].0@ && node_equiv(
            pt[i].1,
            qt[i].1,
        ) by {
            assert(pt[i] == ps[i]);
        }
        lemma_using_pairs_equiv(pt, qt);
        assert(ps.last() == ps[ps.len() - 1]);
        lemma_using_entry_equiv(ps.last().1, qs.last().1);
    }
}

proof fn lemma_str_list_equiv(xs: Seq<Node>, ys: Seq<Node>)
    requires
        xs.len() == ys.len(),
        forall|i: int| 0 <= i < xs.len() ==> node_equiv(#[trigger] xs[i], ys[i]),
    ensures
        str_list_spec(xs) == str_list_spec(ys),
{
    assert forall|i: int| 0 <= i < xs.len() implies (#[trigger] xs[i]).as_str() == ys[i].as_str() by {
        assert(node_equiv(xs[i], ys[i]));
    }
    if forall|i: int| 0 <= i < xs.len() ==> (#[trigger] xs[i]).as_str() is Some {
        assert forall|i: int| 0 <= i < ys.len() implies (#[trigger] ys[i]).as_str() is Some by {
            assert(xs[i].as_str() is Some);
        }
        assert(xs.map_values(|n: Node| n.as_str().unwrap()) =~= ys.map_values(|n: Node| n.as_str().unwrap()));
    } else {
        let j = choose|j: int| 0 <= j < xs.len() && !((#[trigger] xs[j]).as_str() is Some);
        assert(!(ys[j].as_str() is Some));
    }
}

proof fn lemma_extends_entry_equiv(i: nat, x: Node, y: Node, t: TableView)
    requires
        node_equiv(x, y),
    ensures
        extends_entry_spec(i, x, t) == extends_entry_spec(i, y, t),
{
    if let Node::Obj(a) = x {
        let b = y.as_obj().unwrap();
        lemma_lookup_equiv(a, b, "repo"@);
        lemma_lookup_equiv(a, b, "path"@);
        lemma_lookup_equiv(a, b, "pick"@);
        lemma_lookup_equiv(a, b, "omit"@);
        if let Some(pa) = a.field_arr("pick"@) {
            lemma_str_list_equiv(pa, b.field_arr("pick"@).unwrap());
        }
        if let Some(oa) = a.field_arr("omit"@) {
            lemma_str_list_equiv(oa, b.field_arr("omit"@).unwrap());
        }
    }
}

proof fn lemma_extends_items_equiv(xs: Seq<Node>, ys: Seq<Node>, t: TableView)
    requires
        xs.len() == ys.len(),
        forall|i: int| 0 <= i < xs.len() ==> node_equiv(#[trigger] xs[i], ys[i]),
    ensures
        extends_items_spec(xs, t) == extends_items_spec(ys, t),
    decreases xs.len(),
{
    if xs.len() > 0 {
        let (xt, yt) = (xs.drop_last(), ys.drop_last());
        assert forall|i: int| 0 <= i < xt.len() implies node_equiv(#[trigger] xt[i], yt[i]) by {
            assert(xt[i] == xs[i]);
        }
        lemma_extends_items_equiv(xt, yt, t);
        assert(node_equiv(xs[xs.len() - 1], ys[ys.len() - 1]));
        lemma_extends_entry_equiv((xs.len() - 1) as nat, xs.last(), ys.last(), t);
    }
}

/// Compilation is a function of the document's structure: two structurally
/// equal documents (the same document built or read twice) give equal results
/// at every stage, and so equal outcomes.
pub proof fn lemma_compile_structural(a: DocObj, b: DocObj)
    requires
        obj_equiv(a, b),
    ensures
        using_spec(a) == using_spec(b),
        forall|t: TableView| extends_spec(a, t) == #[trigger] extends_spec(b, t),
        compile_spec(a) == compile_spec(b),
{
    lemma_lookup_equiv(a, b, "oof"@);
    if let Some(oa) = a.field_obj("oof"@) {
        let ob = b.field_obj("oof"@).unwrap();
        lemma_schema_equiv(oa, ob);
        lemma_meta_equiv(oa, ob);
    }
    lemma_lookup_equiv(a, b, "using"@);
    if let Some(ua) = a.field_obj("using"@) {
        let ub = b.field_obj("using"@).unwrap();
        assert forall|i: int| 0 <= i < ua.pairs@.len() implies (#[trigger] ua.pairs@[i]).0@ == ub.pairs@[i].0@
            && node_equiv(ua.pairs@[i].1, ub.pairs@[i].1) by {}
        lemma_using_pairs_equiv(ua.pairs@, ub.pairs@);
    }
    lemma_lookup_equiv(a, b, "extends"@);
    assert forall|t: TableView| extends_spec(a, t) == #[trigger] extends_spec(b, t) by {
        if let Some(xa) = a.field_arr("extends"@) {
            lemma_extends_items_equiv(xa, b.field_arr("extends"@).unwrap(), t);
        }
    }
}

} // verus!
