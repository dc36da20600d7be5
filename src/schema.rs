//! The schema pipeline: version dispatch, metadata, the source table and the
//! inheritance declarations, each stage failing fast with one error.
use crate::document::{DocObj, Node};
use crate::error::{malformed, malformed_error, result_view, ErrorView, InstructionProblem, SchemaParsingError};
use crate::model::{
    opt_list_view, Executable, ExecutableView, Extends, ExtendsView, LicenseView, MaintainerView, MetaView,
    OofFile, OofFileLicense, OofFileMeta, OofFileMetaMaintainer, OofFileSchema, Using, UsingView,
};
use crate::table::{has_key, table_insert, TableView, UsingMap};
use crate::text::{decimal, decimal_string, lower_of, lowercase};
use vstd::prelude::*;

verus! {

/// What the schema header of the instruction block `oof` declares.
pub open spec fn schema_spec(oof: DocObj) -> Result<OofFileSchema, ErrorView> {
    match oof.field_obj("schema"@) {
        None => Err(malformed("schema"@, InstructionProblem::NotAnObject)),
        Some(schema) => match schema.field_str("type"@) {
            None => Err(malformed("schema.type"@, InstructionProblem::NotAString)),
            Some(t) => if t == "system"@ {
                match schema.field_str("version"@) {
                    None => Err(malformed("schema.version"@, InstructionProblem::NotAString)),
                    Some(v) => if v == "2021.08.01"@ {
                        Ok(OofFileSchema::System20210801)
                    } else {
                        Err(ErrorView::UnsupportedSchemaVersion { schema_type: t, requested_version: v })
                    },
                }
            } else {
                Err(ErrorView::UnsupportedSchemaType(t))
            },
        },
    }
}

/// Identifies the schema kind and version that the instruction block declares.
pub fn parse_oof_schema_type(oof: &DocObj) -> (r: Result<OofFileSchema, SchemaParsingError>)
    ensures
        result_view(r) == schema_spec(*oof),
{
    match oof.get_obj("schema") {
        None => Err(malformed_error(String::from_str("schema"), InstructionProblem::NotAnObject)),
        Some(schema) => match schema.get_str("type") {
            None => Err(malformed_error(String::from_str("schema.type"), InstructionProblem::NotAString)),
            Some(schema_type) => {
                let system = String::from_str("system");
                if schema_type == system {
                    match schema.get_str("version") {
                        None => Err(
                            malformed_error(String::from_str("schema.version"), InstructionProblem::NotAString),
                        ),
                        Some(version) => {
                            let supported = String::from_str("2021.08.01");
                            if version == supported {
                                Ok(OofFileSchema::System20210801)
                            } else {
                                Err(
                                    SchemaParsingError::UnsupportedSchemaVersion {
                                        schema_type,
                                        requested_version: version,
                                    },
                                )
                            }
                        },
                    }
                } else {
                    Err(SchemaParsingError::UnsupportedSchemaType(schema_type))
                }
            },
        },
    }
}

/// The license that a lower-cased license string `lowered` classifies the
/// literal `license` as.
pub open spec fn classify_spec(license: Seq<char>, lowered: Seq<char>) -> LicenseView {
    if lowered == "restricted"@ || lowered == "proprietary"@ {
        LicenseView::Restricted
    } else {
        LicenseView::SPDXIdentifier(license)
    }
}

/// The license that the literal `license` stands for.
pub open spec fn license_spec(license: Seq<char>) -> LicenseView {
    classify_spec(license, lower_of(license))
}

/// Classifies `license` given its lower-cased form `lowered`: the two reserved
/// words mean a restricted license, anything else is kept verbatim as an
/// identifier.
pub fn classify_lowered_license(license: String, lowered: &String) -> (r: OofFileLicense)
    ensures
        r@ == classify_spec(license@, lowered@),
{
    let restricted = String::from_str("restricted");
    let proprietary = String::from_str("proprietary");
    if *lowered == restricted || *lowered == proprietary {
        OofFileLicense::Restricted
    } else {
        OofFileLicense::SPDXIdentifier(license)
    }
}

/// Classifies a license string, ignoring case for the reserved words.
pub fn classify_license(license: String) -> (r: OofFileLicense)
    ensures
        r@ == license_spec(license@),
{
    let lowered = lowercase(&license);
    classify_lowered_license(license, &lowered)
}

/// What the maintainer block of the metadata block `meta` compiles to: the
/// block must be an object holding a `name` string; `contact` is optional.
pub open spec fn maintainer_result_spec(meta: DocObj) -> Result<MaintainerView, ErrorView> {
    match meta.field_obj("maintainer"@) {
        None => Err(malformed("meta.maintainer"@, InstructionProblem::NotAnObject)),
        Some(m) => match m.field_str("name"@) {
            None => Err(malformed("meta.maintainer.name"@, InstructionProblem::NotAString)),
            Some(name) => Ok(MaintainerView { name, contact: m.field_str("contact"@) }),
        },
    }
}

/// What the metadata block of the instruction block `oof` compiles to.
pub open spec fn meta_spec(oof: DocObj) -> Result<MetaView, ErrorView> {
    match oof.field_obj("meta"@) {
        None => Err(malformed("meta"@, InstructionProblem::NotAnObject)),
        Some(meta) => {
            let maintainer = maintainer_result_spec(meta);
            let homepage = meta.field_str("homepage"@);
            if maintainer is Err && homepage is None {
                Err(malformed("meta.maintainer"@, InstructionProblem::MaintainerOrHomepageRequired))
            } else {
                match meta.field_str("license"@) {
                    None => Err(malformed("meta.license"@, InstructionProblem::NotAString)),
                    Some(license) => Ok(
                        MetaView {
                            maintainer: match maintainer {
                                Ok(m) => Some(m),
                                Err(_) => None,
                            },
                            homepage,
                            license: license_spec(license),
                        },
                    ),
                }
            }
        },
    }
}

/// Compiles the maintainer block of the metadata block.
pub fn parse_oof_meta_maintainer(meta: &DocObj) -> (r: Result<OofFileMetaMaintainer, SchemaParsingError>)
    ensures
        result_view(r) == maintainer_result_spec(*meta),
{
    match meta.get_obj("maintainer") {
        None => Err(malformed_error(String::from_str("meta.maintainer"), InstructionProblem::NotAnObject)),
        Some(maintainer) => match maintainer.get_str("name") {
            None => Err(
                malformed_error(String::from_str("meta.maintainer.name"), InstructionProblem::NotAString),
            ),
            Some(name) => Ok(OofFileMetaMaintainer { name, contact: maintainer.get_str("contact") }),
        },
    }
}

/// Compiles the metadata block of the instruction block.
pub fn parse_oof_meta(oof: &DocObj) -> (r: Result<OofFileMeta, SchemaParsingError>)
    ensures
        result_view(r) == meta_spec(*oof),
{
    match oof.get_obj("meta") {
        None => Err(malformed_error(String::from_str("meta"), InstructionProblem::NotAnObject)),
        Some(meta) => {
            let maintainer = parse_oof_meta_maintainer(meta);
            let homepage = meta.get_str("homepage");
            if maintainer.is_err() && homepage.is_none() {
                return Err(
                    malformed_error(
                        String::from_str("meta.maintainer"),
                        InstructionProblem::MaintainerOrHomepageRequired,
                    ),
                );
            }
            match meta.get_str("license") {
                None => Err(malformed_error(String::from_str("meta.license"), InstructionProblem::NotAString)),
                Some(license) => Ok(
                    OofFileMeta { maintainer: maintainer.ok(), homepage, license: classify_license(license) },
                ),
            }
        },
    }
}

/// The source that the value of a `using` entry binds, if it binds one.
pub open spec fn using_entry_spec(v: Node) -> Option<UsingView> {
    match v.as_obj() {
        None => None,
        Some(c) => match c.field_str("git"@) {
            None => None,
            Some(upstream) => Some(
                UsingView::Git {
                    upstream,
                    rev: c.field_str("rev"@),
                    shallow: match c.field_bool("shallow"@) {
                        Some(b) => b,
                        None => false,
                    },
                    bin: match c.field_str("bin"@) {
                        Some(b) => ExecutableView::UserProvided(b),
                        None => ExecutableView::Discoverable("git"@),
                    },
                },
            ),
        },
    }
}

/// The source table that the entries `pairs` build, in order, or the error
/// for the first entry that binds no source.
pub open spec fn using_pairs_spec(pairs: Seq<(String, Node)>) -> Result<TableView, ErrorView>
    decreases pairs.len(),
{
    if pairs.len() == 0 {
        Ok(Seq::empty())
    } else {
        match using_pairs_spec(pairs.drop_last()) {
            Err(e) => Err(e),
            Ok(t) => match using_entry_spec(pairs.last().1) {
                None => Err(
                    malformed("using."@ + pairs.last().0@, InstructionProblem::CouldNotDetermineRepoType),
                ),
                Some(u) => Ok(table_insert(t, pairs.last().0@, u)),
            },
        }
    }
}

/// Once a prefix of the entries fails, every longer prefix fails the same way.
pub(crate) proof fn lemma_using_error_persists(pairs: Seq<(String, Node)>, n: int, m: int)
    requires
        0 <= n <= m <= pairs.len(),
        using_pairs_spec(pairs.take(n)) is Err,
    ensures
        using_pairs_spec(pairs.take(m)) == using_pairs_spec(pairs.take(n)),
    decreases m - n,
{
    if m > n {
        lemma_using_error_persists(pairs, n, m - 1);
        assert(pairs.take(m).drop_last() =~= pairs.take(m - 1));
    }
}

/// What the `using` block of the document `doc` compiles to.
pub open spec fn using_spec(doc: DocObj) -> Result<TableView, ErrorView> {
    match doc.field_obj("using"@) {
        None => Err(malformed("using"@, InstructionProblem::NotAnObject)),
        Some(u) => using_pairs_spec(u.pairs@),
    }
}

fn parse_using_entry(v: &Node) -> (r: Option<Using>)
    ensures
        r matches Some(u) ==> using_entry_spec(*v) == Some(u@),
        r is None ==> using_entry_spec(*v) is None,
{
    match v.get_obj() {
        None => None,
        Some(c) => match c.get_str("git") {
            None => None,
            Some(upstream) => {
                let shallow = match c.get_bool("shallow") {
                    Some(b) => b,
                    None => false,
                };
                let bin = match c.get_str("bin") {
                    Some(b) => Executable::UserProvided(b),
                    None => Executable::Discoverable("git"),
                };
                Some(Using::Git { upstream, rev: c.get_str("rev"), shallow, bin })
            },
        },
    }
}

/// Builds the source table from the `using` block of the document.
pub fn parse_using(config: &DocObj) -> (r: Result<UsingMap, SchemaParsingError>)
    ensures
        result_view(r) == using_spec(*config),
        r matches Ok(t) ==> t.wf(),
{
    match config.get_obj("using") {
        None => Err(malformed_error(String::from_str("using"), InstructionProblem::NotAnObject)),
        Some(using) => {
            let mut result = UsingMap::new();
            let mut i: usize = 0;
            assert(using.pairs@.take(0) =~= Seq::<(String, Node)>::empty());
            while i < using.pairs.len()
                invariant
                    i <= using.pairs@.len(),
                    result.wf(),
                    using_pairs_spec(using.pairs@.take(i as int)) == Ok::<TableView, ErrorView>(result@),
                    config.field_obj("using"@) == Some(*using),
                decreases using.pairs@.len() - i,
            {
                let ghost prefix = using.pairs@.take(i + 1);
                assert(prefix.drop_last() =~= using.pairs@.take(i as int));
                let name = &using.pairs[i].0;
                match parse_using_entry(&using.pairs[i].1) {
                    None => {
                        let mut field = String::from_str("using.");
                        field.append(name.as_str());
                        proof {
                            lemma_using_error_persists(using.pairs@, i + 1, using.pairs@.len() as int);
                            assert(using.pairs@.take(using.pairs@.len() as int) =~= using.pairs@);
                        }
                        return Err(malformed_error(field, InstructionProblem::CouldNotDetermineRepoType));
                    },
                    Some(u) => {
                        result.insert(name.clone(), u);
                    },
                }
                i = i + 1;
            }
            assert(using.pairs@.take(i as int) =~= using.pairs@);
            Ok(result)
        },
    }
}

/// The strings that `items` holds, if every one of them is a string.
pub open spec fn str_list_spec(items: Seq<Node>) -> Option<Seq<Seq<char>>> {
    if forall|i: int| 0 <= i < items.len() ==> (#[trigger] items[i]).as_str() is Some {
        Some(items.map_values(|n: Node| n.as_str().unwrap()))
    } else {
        None
    }
}

/// An optional selection list: present only where the field is an array of strings.
pub open spec fn selection_spec(a: Option<Seq<Node>>) -> Option<Seq<Seq<char>>> {
    match a {
        Some(items) => str_list_spec(items),
        None => None,
    }
}

/// The field path of the `i`-th inheritance declaration.
pub open spec fn extends_field(i: nat) -> Seq<char> {
    "extends["@ + decimal(i) + "]"@
}

/// What the `i`-th inheritance declaration `v` compiles to against the source table `t`.
pub open spec fn extends_entry_spec(i: nat, v: Node, t: TableView) -> Result<ExtendsView, ErrorView> {
    match v.as_obj() {
        None => Err(malformed(extends_field(i), InstructionProblem::NotAnObject)),
        Some(e) => match e.field_str("repo"@) {
            None => Err(malformed(extends_field(i) + ".repo"@, InstructionProblem::NotAString)),
            Some(repo) => if !has_key(t, repo) {
                Err(ErrorView::ExtendingNonExistantRepo(repo))
            } else {
                match e.field_str("path"@) {
                    None => Err(malformed(extends_field(i) + ".path"@, InstructionProblem::NotAString)),
                    Some(path) => Ok(
                        ExtendsView {
                            repo,
                            path,
                            pick: selection_spec(e.field_arr("pick"@)),
                            omit: selection_spec(e.field_arr("omit"@)),
                        },
                    ),
                }
            },
        },
    }
}

/// The declarations that `items` compile to, in order, or the error of the first that fails.
pub open spec fn extends_items_spec(items: Seq<Node>, t: TableView) -> Result<Seq<ExtendsView>, ErrorView>
    decreases items.len(),
{
    if items.len() == 0 {
        Ok(Seq::empty())
    } else {
        match extends_items_spec(items.drop_last(), t) {
            Err(e) => Err(e),
            Ok(done) => match extends_entry_spec((items.len() - 1) as nat, items.last(), t) {
                Err(e) => Err(e),
                Ok(x) => Ok(done.push(x)),
            },
        }
    }
}

/// What the `extends` array of the document `doc` compiles to against the source table `t`.
pub open spec fn extends_spec(doc: DocObj, t: TableView) -> Result<Seq<ExtendsView>, ErrorView> {
    match doc.field_arr("extends"@) {
        None => Err(malformed("extends"@, InstructionProblem::NotAHomogeneousArray)),
        Some(items) => extends_items_spec(items, t),
    }
}

/// The views of a list of declarations.
pub open spec fn extends_list_view(v: Seq<Extends>) -> Seq<ExtendsView> {
    v.map_values(|x: Extends| x@)
}

/// Once a prefix of the declarations fails, every longer prefix fails the same way.
pub(crate) proof fn lemma_extends_error_persists(items: Seq<Node>, t: TableView, n: int, m: int)
    requires
        0 <= n <= m <= items.len(),
        extends_items_spec(items.take(n), t) is Err,
    ensures
        extends_items_spec(items.take(m), t) == extends_items_spec(items.take(n), t),
    decreases m - n,
{
    if m > n {
        lemma_extends_error_persists(items, t, n, m - 1);
        assert(items.take(m).drop_last() =~= items.take(m - 1));
    }
}

/// Reads a selection list: the strings of `items` if all of them are strings.
fn read_selection(items: &Vec<Node>) -> (r: Option<Vec<String>>)
    ensures
        opt_list_view(r) == str_list_spec(items@),
{
    let mut out: Vec<String> = Vec::new();
    let mut i: usize = 0;
    while i < items.len()
        invariant
            i <= items@.len(),
            out@.len() == i,
            forall|j: int| 0 <= j < i ==> (#[trigger] items@[j]).as_str() == Some(out@[j]@),
        decreases items@.len() - i,
    {
        match items[i].get_str() {
            None => {
                return None;
            },
            Some(s) => {
                out.push(s);
            },
        }
        i = i + 1;
    }
    assert(out@.map_values(|s: String| s@) =~= items@.map_values(|n: Node| n.as_str().unwrap()));
    Some(out)
}

fn parse_selection(e: &DocObj, key: &str) -> (r: Option<Vec<String>>)
    ensures
        opt_list_view(r) == selection_spec(e.field_arr(key@)),
{
    match e.get_arr(key) {
        None => None,
        Some(items) => read_selection(items),
    }
}

/// Builds the field path of the `i`-th declaration, followed by `suffix`.
fn extends_field_name(i: usize, suffix: &str) -> (r: String)
    ensures
        r@ == extends_field(i as nat) + suffix@,
{
    let mut f = String::from_str("extends[");
    let digits = decimal_string(i);
    f.append(digits.as_str());
    f.append("]");
    f.append(suffix);
    f
}

fn parse_extends_entry(i: usize, v: &Node, using: &UsingMap) -> (r: Result<Extends, SchemaParsingError>)
    ensures
        result_view(r) == extends_entry_spec(i as nat, *v, using@),
{
    proof {
        reveal_strlit("");
        assert(extends_field(i as nat) + ""@ =~= extends_field(i as nat));
    }
    let e = match v.get_obj() {
        Some(e) => e,
        None => {
            return Err(malformed_error(extends_field_name(i, ""), InstructionProblem::NotAnObject));
        },
    };
    let repo = match e.get_str("repo") {
        Some(repo) => repo,
        None => {
            return Err(malformed_error(extends_field_name(i, ".repo"), InstructionProblem::NotAString));
        },
    };
    if !using.contains_key(repo.as_str()) {
        return Err(SchemaParsingError::ExtendingNonExistantRepo(repo));
    }
    let path = match e.get_str("path") {
        Some(path) => path,
        None => {
            return Err(malformed_error(extends_field_name(i, ".path"), InstructionProblem::NotAString));
        },
    };
    Ok(Extends { repo, path, pick: parse_selection(e, "pick"), omit: parse_selection(e, "omit") })
}

/// Resolves the inheritance declarations of the document against its source table.
pub fn parse_extends(config: &DocObj, using: &UsingMap) -> (r: Result<Vec<Extends>, SchemaParsingError>)
    ensures
        r matches Ok(v) ==> extends_spec(*config, using@) == Ok::<Seq<ExtendsView>, ErrorView>(
            extends_list_view(v@),
        ),
        r matches Err(e) ==> extends_spec(*config, using@) == Err::<Seq<ExtendsView>, ErrorView>(e@),
{
    match config.get_arr("extends") {
        None => Err(malformed_error(String::from_str("extends"), InstructionProblem::NotAHomogeneousArray)),
        Some(items) => {
            let mut result: Vec<Extends> = Vec::new();
            let mut i: usize = 0;
            assert(items@.take(0) =~= Seq::<Node>::empty());
            assert(extends_list_view(result@) =~= Seq::<ExtendsView>::empty());
            while i < items.len()
                invariant
                    i <= items@.len(),
                    config.field_arr("extends"@) == Some(items@),
                    extends_items_spec(items@.take(i as int), using@) == Ok::<Seq<ExtendsView>, ErrorView>(
                        extends_list_view(result@),
                    ),
                decreases items@.len() - i,
            {
                let ghost prefix = items@.take(i + 1);
                assert(prefix.drop_last() =~= items@.take(i as int));
                assert(prefix.last() == items@[i as int]);
                let ghost before = result@;
                match parse_extends_entry(i, &items[i], using) {
                    Err(e) => {
                        proof {
                            lemma_extends_error_persists(items@, using@, i + 1, items@.len() as int);
                            assert(items@.take(items@.len() as int) =~= items@);
                        }
                        return Err(e);
                    },
                    Ok(x) => {
                        result.push(x);
                        assert(extends_list_view(result@) =~= extends_list_view(before).push(x@));
                    },
                }
                i = i + 1;
            }
            assert(items@.take(i as int) =~= items@);
            Ok(result)
        },
    }
}

/// What compiling the document `doc` ends in: the first stage that fails
/// gives the error; when every stage succeeds, the sections after the header
/// are reported as not implemented.
pub open spec fn compile_spec(doc: DocObj) -> ErrorView {
    match doc.field_obj("oof"@) {
        None => ErrorView::MissingOofInstruction,
        Some(oof) => match schema_spec(oof) {
            Err(e) => e,
            Ok(_) => match meta_spec(oof) {
                Err(e) => e,
                Ok(_) => match using_spec(doc) {
                    Err(e) => e,
                    Ok(t) => match extends_spec(doc, t) {
                        Err(e) => e,
                        Ok(_) => ErrorView::Generic("rest not implemented"@),
                    },
                },
            },
        },
    }
}

/// Compiles a whole document: schema header, metadata, source table and
/// inheritance declarations, in that order, stopping at the first failure.
pub fn from_over_obj(obj: &DocObj) -> (r: Result<OofFile, SchemaParsingError>)
    ensures
        r matches Err(e) && e@ == compile_spec(*obj),
{
    let oof = match obj.get_obj("oof") {
        Some(oof) => oof,
        None => {
            return Err(SchemaParsingError::MissingOofInstruction);
        },
    };
    let _schema = parse_oof_schema_type(oof)?;
    let _meta = parse_oof_meta(oof)?;
    let using = parse_using(obj)?;
    let _extends = parse_extends(obj, &using)?;
    Err(SchemaParsingError::Generic("rest not implemented"))
}

} // verus!
