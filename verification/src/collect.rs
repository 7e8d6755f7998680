//! Resolution of the dependency tables and of the replacement table of a
//! manifest.

use crate::dependency::{
    spec_dependency_warnings, spec_nested_paths, spec_platform, spec_to_dependency, Ambient,
    Context, DependencyView, Kind, Platform, TomlDependency, TomlDependencyView,
};
use crate::document::{
    either, DependencyTable, DependencyTableView, TomlManifest, TomlManifestView, TomlPlatform,
    TomlPlatformView,
};
use crate::error::{ManifestError, ManifestErrorView, WarningView};
use crate::manifest::{Replacements, ReplacementsView};
use crate::package_id::{spec_package_id_spec, PackageIdSpec, PackageIdSpecView};
use crate::source::crates_io_index;
use crate::version::{VersionReq, VersionReqView};
use vstd::prelude::*;
use vstd::string::*;

verus! {

/// What dependency resolution has collected.
pub struct Collected {
    pub deps: Seq<DependencyView>,
    pub nested_paths: Seq<Seq<char>>,
    pub warnings: Seq<WarningView>,
}

impl Collected {
    /// Nothing collected yet.
    pub open spec fn empty() -> Collected {
        Collected { deps: Seq::empty(), nested_paths: Seq::empty(), warnings: Seq::empty() }
    }

    /// With what resolving the declaration `dep` under `name` adds beside
    /// the dependency itself.
    pub open spec fn noting(self, name: Seq<char>, dep: TomlDependencyView, ctx: Ambient) -> Collected {
        Collected {
            deps: self.deps,
            nested_paths: self.nested_paths + spec_nested_paths(dep.details()),
            warnings: self.warnings + spec_dependency_warnings(name, dep, ctx),
        }
    }

    /// With one more dependency.
    pub open spec fn with_dep(self, dep: DependencyView) -> Collected {
        Collected { deps: self.deps.push(dep), ..self }
    }
}

/// What the context has collected.
pub open spec fn collected(cx: &Context) -> Collected {
    Collected {
        deps: cx.deps.deep_view(),
        nested_paths: cx.nested_paths.deep_view(),
        warnings: cx.warnings.deep_view(),
    }
}

/// Resolves the entries of a table in order, each of kind `kind`, up to
/// the first that fails.
pub open spec fn spec_table(
    entries: DependencyTableView,
    ctx: Ambient,
    kind: Option<Kind>,
    acc: Collected,
) -> Result<Collected, ManifestErrorView>
    decreases entries.len(),
{
    if entries.len() == 0 {
        Ok(acc)
    } else {
        let (name, dep) = entries[0];
        match spec_to_dependency(name, dep, ctx, kind) {
            Err(e) => Err(e),
            Ok(d) => spec_table(
                entries.drop_first(),
                ctx,
                kind,
                acc.noting(name, dep, ctx).with_dep(d),
            ),
        }
    }
}

/// Resolves a table that may be missing.
pub open spec fn spec_opt_table(
    table: Option<DependencyTableView>,
    ctx: Ambient,
    kind: Option<Kind>,
    acc: Collected,
) -> Result<Collected, ManifestErrorView> {
    match table {
        Some(entries) => spec_table(entries, ctx, kind, acc),
        None => Ok(acc),
    }
}

/// Resolves the three tables of one platform section: normal, build and
/// development dependencies, in this order.
pub open spec fn spec_platform_section(
    key: Seq<char>,
    section: TomlPlatformView,
    ctx: Ambient,
    acc: Collected,
) -> Result<Collected, ManifestErrorView> {
    match spec_platform(key) {
        Err(e) => Err(e),
        Ok(platform) => {
            let c = Ambient { platform: Some(platform), ..ctx };
            match spec_opt_table(section.dependencies, c, None, acc) {
                Err(e) => Err(e),
                Ok(a1) => match spec_opt_table(section.build_deps(), c, Some(Kind::Build), a1) {
                    Err(e) => Err(e),
                    Ok(a2) => spec_opt_table(section.dev_deps(), c, Some(Kind::Development), a2),
                },
            }
        },
    }
}

/// Resolves the platform sections in order.
pub open spec fn spec_platform_sections(
    sections: Seq<(Seq<char>, TomlPlatformView)>,
    ctx: Ambient,
    acc: Collected,
) -> Result<Collected, ManifestErrorView>
    decreases sections.len(),
{
    if sections.len() == 0 {
        Ok(acc)
    } else {
        match spec_platform_section(sections[0].0, sections[0].1, ctx, acc) {
            Err(e) => Err(e),
            Ok(a) => spec_platform_sections(sections.drop_first(), ctx, a),
        }
    }
}

/// Resolves all dependency tables of a manifest: normal, development and
/// build dependencies, then those of each platform section.
pub open spec fn spec_all_tables(m: TomlManifestView, ctx: Ambient, acc: Collected) -> Result<
    Collected,
    ManifestErrorView,
> {
    match spec_opt_table(m.dependencies, ctx, None, acc) {
        Err(e) => Err(e),
        Ok(a1) => match spec_opt_table(m.dev_deps(), ctx, Some(Kind::Development), a1) {
            Err(e) => Err(e),
            Ok(a2) => match spec_opt_table(m.build_deps(), ctx, Some(Kind::Build), a2) {
                Err(e) => Err(e),
                Ok(a3) => match m.target {
                    Some(sections) => spec_platform_sections(sections, ctx, a3),
                    None => Ok(a3),
                },
            },
        },
    }
}

/// One replacement. Its key must be a package specification with a
/// version, the declaration must give no version requirement, and the
/// dependency that the declaration resolves to is pinned to exactly the
/// version of the key. A key without a source means the default registry.
pub open spec fn spec_replacement(key: Seq<char>, dep: TomlDependencyView, ctx: Ambient) -> Result<
    (PackageIdSpecView, DependencyView),
    ManifestErrorView,
> {
    match spec_package_id_spec(key) {
        None => Err(ManifestErrorView::InvalidReplacementSpec { spec: key }),
        Some(spec) => if dep.version_specified() {
            Err(ManifestErrorView::ReplacementWithVersionReq { spec: key })
        } else {
            match spec_to_dependency(spec.name, dep, ctx, None) {
                Err(e) => Err(e),
                Ok(d) => match spec.version {
                    None => Err(ManifestErrorView::ReplacementWithoutVersion { spec: key }),
                    Some(v) => Ok(
                        (
                            PackageIdSpecView {
                                url: if spec.url is Some {
                                    spec.url
                                } else {
                                    Some(crates_io_index())
                                },
                                ..spec
                            },
                            DependencyView { req: VersionReqView::Exact(v), ..d },
                        ),
                    ),
                },
            }
        },
    }
}

/// What resolving the replacement under `key` adds to what is collected,
/// where resolution gets as far as the declaration.
pub open spec fn replacement_noting(
    key: Seq<char>,
    dep: TomlDependencyView,
    ctx: Ambient,
    acc: Collected,
) -> Collected {
    match spec_package_id_spec(key) {
        Some(spec) => if dep.version_specified() {
            acc
        } else {
            acc.noting(spec.name, dep, ctx)
        },
        None => acc,
    }
}

/// Resolves the entries of the replacement table in order, up to the
/// first that fails.
pub open spec fn spec_replacements(
    entries: DependencyTableView,
    ctx: Ambient,
    done: ReplacementsView,
    acc: Collected,
) -> Result<(ReplacementsView, Collected), ManifestErrorView>
    decreases entries.len(),
{
    if entries.len() == 0 {
        Ok((done, acc))
    } else {
        let (key, dep) = entries[0];
        match spec_replacement(key, dep, ctx) {
            Err(e) => Err(e),
            Ok(r) => spec_replacements(
                entries.drop_first(),
                ctx,
                done.push(r),
                replacement_noting(key, dep, ctx, acc),
            ),
        }
    }
}

/// Resolves the replacement table of a manifest, which may be missing.
pub open spec fn spec_replace(m: TomlManifestView, ctx: Ambient, acc: Collected) -> Result<
    (ReplacementsView, Collected),
    ManifestErrorView,
> {
    match m.replace {
        Some(entries) => spec_replacements(entries, ctx, Seq::empty(), acc),
        None => Ok((Seq::empty(), acc)),
    }
}

/// Resolves a table of dependencies into `cx`.
pub(crate) fn process_dependencies(
    cx: &mut Context,
    new_deps: &Option<DependencyTable>,
    kind: Option<Kind>,
) -> (r: Result<(), ManifestError>)
    ensures
        match r {
            Ok(()) => spec_opt_table(
                new_deps.deep_view(),
                old(cx).ambient(),
                kind,
                collected(old(cx)),
            ) == Ok::<Collected, ManifestErrorView>(collected(final(cx))),
            Err(e) => spec_opt_table(
                new_deps.deep_view(),
                old(cx).ambient(),
                kind,
                collected(old(cx)),
            ) == Err::<Collected, ManifestErrorView>(e@),
        },
        final(cx).ambient() == old(cx).ambient(),
        final(cx).layout == old(cx).layout,
        final(cx).source_id == old(cx).source_id,
{
    let table = match new_deps {
        Some(t) => t,
        None => {
            return Ok(());
        },
    };
    let ghost all = table.deep_view();
    let ghost amb = cx.ambient();
    let ghost start = collected(cx);
    let mut i: usize = 0;
    assert(all.skip(0) =~= all);
    while i < table.len()
        invariant
            i <= table.len(),
            all == table.deep_view(),
            new_deps.deep_view() == Some(all),
            amb == old(cx).ambient(),
            start == collected(old(cx)),
            cx.ambient() == amb,
            cx.layout == old(cx).layout,
            cx.source_id == old(cx).source_id,
            spec_table(all, amb, kind, start) == spec_table(
                all.skip(i as int),
                amb,
                kind,
                collected(cx),
            ),
        decreases table.len() - i,
    {
        let ghost before = collected(cx);
        let ghost name = table[i as int].0@;
        let ghost decl = table[i as int].1@;
        proof {
            assert(all.skip(i as int)[0] == (name, decl));
            assert(all.skip(i as int).drop_first() =~= all.skip(i + 1));
        }
        match table[i].1.to_dependency(table[i].0.as_str(), cx, kind) {
            Ok(dep) => {
                let ghost deps0 = cx.deps.deep_view();
                cx.deps.push(dep);
                assert(cx.deps.deep_view() =~= deps0.push(dep@));
                assert(collected(cx) == before.noting(name, decl, amb).with_dep(dep@));
            },
            Err(e) => {
                return Err(e);
            },
        }
        i += 1;
    }
    Ok(())
}

fn first_table<'a>(first: &'a Option<DependencyTable>, second: &'a Option<DependencyTable>) -> (r:
    &'a Option<DependencyTable>)
    ensures
        r.deep_view() == either(first.deep_view(), second.deep_view()),
{
    if first.is_some() {
        first
    } else {
        second
    }
}

/// Resolves the tables of the platform section under `key` into `cx`,
/// whose platform is then that of the section.
fn platform_section(cx: &mut Context, key: &str, section: &TomlPlatform) -> (r: Result<
    (),
    ManifestError,
>)
    ensures
        match r {
            Ok(()) => spec_platform_section(key@, section@, old(cx).ambient(), collected(old(cx)))
                == Ok::<Collected, ManifestErrorView>(collected(final(cx))),
            Err(e) => spec_platform_section(key@, section@, old(cx).ambient(), collected(old(cx)))
                == Err::<Collected, ManifestErrorView>(e@),
        },
        final(cx).in_package == old(cx).in_package,
        final(cx).layout == old(cx).layout,
        final(cx).source_id == old(cx).source_id,
{
    let platform = match Platform::from_str(key) {
        Ok(p) => p,
        Err(e) => {
            return Err(e);
        },
    };
    cx.platform = Some(platform);
    match process_dependencies(cx, &section.dependencies, None) {
        Ok(()) => {},
        Err(e) => {
            return Err(e);
        },
    }
    let build_deps = first_table(&section.build_dependencies, &section.build_dependencies2);
    match process_dependencies(cx, build_deps, Some(Kind::Build)) {
        Ok(()) => {},
        Err(e) => {
            return Err(e);
        },
    }
    let dev_deps = first_table(&section.dev_dependencies, &section.dev_dependencies2);
    process_dependencies(cx, dev_deps, Some(Kind::Development))
}

/// Resolves every dependency table of the manifest into `cx`.
pub(crate) fn collect_dependencies(m: &TomlManifest, cx: &mut Context) -> (r: Result<(), ManifestError>)
    requires
        old(cx).platform is None,
    ensures
        match r {
            Ok(()) => spec_all_tables(m@, old(cx).ambient(), collected(old(cx))) == Ok::<
                Collected,
                ManifestErrorView,
            >(collected(final(cx))),
            Err(e) => spec_all_tables(m@, old(cx).ambient(), collected(old(cx))) == Err::<
                Collected,
                ManifestErrorView,
            >(e@),
        },
        final(cx).ambient() == old(cx).ambient(),
        final(cx).layout == old(cx).layout,
        final(cx).source_id == old(cx).source_id,
{
    match process_dependencies(cx, &m.dependencies, None) {
        Ok(()) => {},
        Err(e) => {
            return Err(e);
        },
    }
    let dev_deps = first_table(&m.dev_dependencies, &m.dev_dependencies2);
    match process_dependencies(cx, dev_deps, Some(Kind::Development)) {
        Ok(()) => {},
        Err(e) => {
            return Err(e);
        },
    }
    let build_deps = first_table(&m.build_dependencies, &m.build_dependencies2);
    match process_dependencies(cx, build_deps, Some(Kind::Build)) {
        Ok(()) => {},
        Err(e) => {
            return Err(e);
        },
    }
    let sections = match &m.target {
        Some(s) => s,
        None => {
            return Ok(());
        },
    };
    let ghost all = sections.deep_view();
    let ghost amb = old(cx).ambient();
    let ghost start = collected(cx);
    let mut i: usize = 0;
    assert(all.skip(0) =~= all);
    assert(spec_all_tables(m@, amb, collected(old(cx))) == spec_platform_sections(all, amb, start));
    while i < sections.len()
        invariant
            i <= sections.len(),
            all == sections.deep_view(),
            spec_all_tables(m@, amb, collected(old(cx))) == spec_platform_sections(
                all,
                amb,
                start,
            ),
            amb == old(cx).ambient(),
            amb.platform is None,
            cx.in_package == old(cx).in_package,
            cx.layout == old(cx).layout,
            cx.source_id == old(cx).source_id,
            spec_platform_sections(all, amb, start) == spec_platform_sections(
                all.skip(i as int),
                amb,
                collected(cx),
            ),
        decreases sections.len() - i,
    {
        proof {
            assert(all.skip(i as int)[0] == (sections[i as int].0@, sections[i as int].1@));
            assert(all.skip(i as int).drop_first() =~= all.skip(i + 1));
            assert(spec_platform_section(
                sections[i as int].0@,
                sections[i as int].1@,
                cx.ambient(),
                collected(cx),
            ) == spec_platform_section(
                sections[i as int].0@,
                sections[i as int].1@,
                amb,
                collected(cx),
            ));
        }
        match platform_section(cx, sections[i].0.as_str(), &sections[i].1) {
            Ok(()) => {},
            Err(e) => {
                cx.platform = None;
                return Err(e);
            },
        }
        i += 1;
    }
    cx.platform = None;
    Ok(())
}

/// Resolves the replacement table of the manifest. Warnings and nested
/// paths go into `cx`; its dependencies stay as they are.
pub(crate) fn replace(m: &TomlManifest, cx: &mut Context) -> (r: Result<Replacements, ManifestError>)
    ensures
        match r {
            Ok(list) => spec_replace(m@, old(cx).ambient(), collected(old(cx))) == Ok::<
                (ReplacementsView, Collected),
                ManifestErrorView,
            >((list.deep_view(), collected(final(cx)))),
            Err(e) => spec_replace(m@, old(cx).ambient(), collected(old(cx))) == Err::<
                (ReplacementsView, Collected),
                ManifestErrorView,
            >(e@),
        },
        final(cx).ambient() == old(cx).ambient(),
        final(cx).layout == old(cx).layout,
        final(cx).source_id == old(cx).source_id,
{
    let mut out: Replacements = Vec::new();
    assert(out.deep_view() =~= Seq::empty());
    let table = match &m.replace {
        Some(t) => t,
        None => {
            return Ok(out);
        },
    };
    let ghost all = table.deep_view();
    let ghost amb = cx.ambient();
    let ghost start = collected(cx);
    let mut i: usize = 0;
    assert(all.skip(0) =~= all);
    while i < table.len()
        invariant
            i <= table.len(),
            all == table.deep_view(),
            m@.replace == Some(all),
            amb == old(cx).ambient(),
            start == collected(old(cx)),
            cx.ambient() == amb,
            cx.layout == old(cx).layout,
            cx.source_id == old(cx).source_id,
            spec_replacements(all, amb, Seq::empty(), start) == spec_replacements(
                all.skip(i as int),
                amb,
                out.deep_view(),
                collected(cx),
            ),
        decreases table.len() - i,
    {
        let key = table[i].0.as_str();
        let replacement = &table[i].1;
        let ghost done = out.deep_view();
        proof {
            assert(all.skip(i as int)[0] == (key@, replacement@));
            assert(all.skip(i as int).drop_first() =~= all.skip(i + 1));
        }
        let mut spec = match PackageIdSpec::parse(key) {
            Some(s) => s,
            None => {
                return Err(ManifestError::InvalidReplacementSpec { spec: String::from_str(key) });
            },
        };
        let ghost parsed = spec@;
        if spec.url.is_none() {
            spec.url = Some(String::from_str("https://github.com/rust-lang/crates.io-index"));
        }
        let version_specified = match replacement {
            TomlDependency::Detailed(d) => d.version.is_some(),
            TomlDependency::Simple(_) => true,
        };
        if version_specified {
            return Err(ManifestError::ReplacementWithVersionReq { spec: String::from_str(key) });
        }
        let mut dep = match replacement.to_dependency(spec.name.as_str(), cx, None) {
            Ok(d) => d,
            Err(e) => {
                return Err(e);
            },
        };
        let req = match &spec.version {
            Some(v) => VersionReq::exact(v),
            None => {
                return Err(
                    ManifestError::ReplacementWithoutVersion { spec: String::from_str(key) },
                );
            },
        };
        dep.req = req;
        let ghost pair = (spec@, dep@);
        out.push((spec, dep));
        proof {
            assert(out.deep_view() =~= done.push(pair));
            assert(spec_replacement(key@, replacement@, amb) == Ok::<
                (PackageIdSpecView, DependencyView),
                ManifestErrorView,
            >(pair));
        }
        i += 1;
    }
    Ok(out)
}

/// Resolving replacements adds no dependency.
pub proof fn lemma_replacements_keep_deps(
    entries: DependencyTableView,
    ctx: Ambient,
    done: ReplacementsView,
    acc: Collected,
)
    ensures
        spec_replacements(entries, ctx, done, acc) matches Ok(r) ==> r.1.deps == acc.deps,
    decreases entries.len(),
{
    if entries.len() > 0 {
        let (key, dep) = entries[0];
        match spec_replacement(key, dep, ctx) {
            Err(_) => {},
            Ok(r) => {
                lemma_replacements_keep_deps(
                    entries.drop_first(),
                    ctx,
                    done.push(r),
                    replacement_noting(key, dep, ctx, acc),
                );
            },
        }
    }
}

/// Resolving the replacement table adds no dependency.
pub proof fn lemma_replace_keeps_deps(m: TomlManifestView, ctx: Ambient, acc: Collected)
    ensures
        spec_replace(m, ctx, acc) matches Ok(r) ==> r.1.deps == acc.deps,
{
    if m.replace is Some {
        lemma_replacements_keep_deps(m.replace.unwrap(), ctx, Seq::empty(), acc);
    }
}

} // verus!
