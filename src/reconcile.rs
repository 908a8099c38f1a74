use vstd::prelude::*;

use crate::manifest::{ExtensionManifest, ExtensionManifestSetting};
use crate::settings::{rows_of, ExtensionSetting, SettingRow, Settings};

verus! {

/// The row is the one stored for `(ext, id)`.
pub open spec fn row_is(r: SettingRow, ext: Seq<char>, id: Seq<char>) -> bool {
    r.extension_id == ext && r.setting_id == id
}

/// Some row is stored for `(ext, id)`.
pub open spec fn has_row(rows: Seq<SettingRow>, ext: Seq<char>, id: Seq<char>) -> bool {
    exists|i: int| 0 <= i < rows.len() && row_is(#[trigger] rows[i], ext, id)
}

/// No two rows share an `(extension_id, setting_id)` pair.
pub open spec fn unique_rows(rows: Seq<SettingRow>) -> bool {
    forall|i: int, j: int|
        0 <= i < rows.len() && 0 <= j < rows.len() && i != j ==> !row_is(
            #[trigger] rows[i],
            #[trigger] rows[j].extension_id,
            rows[j].setting_id,
        )
}

/// Adds the row `(ext, id, value)` unless a row for `(ext, id)` is already stored.
pub open spec fn with_row(
    rows: Seq<SettingRow>,
    ext: Seq<char>,
    id: Seq<char>,
    value: Seq<char>,
) -> Seq<SettingRow> {
    if has_row(rows, ext, id) {
        rows
    } else {
        rows.push(SettingRow { extension_id: ext, setting_id: id, setting_value: value })
    }
}

/// Applies `with_row` for each declared `(setting_id, default)` pair, in order.
pub open spec fn with_rows(
    rows: Seq<SettingRow>,
    ext: Seq<char>,
    decl: Seq<(Seq<char>, Seq<char>)>,
) -> Seq<SettingRow>
    decreases decl.len(),
{
    if decl.len() == 0 {
        rows
    } else {
        with_row(with_rows(rows, ext, decl.drop_last()), ext, decl.last().0, decl.last().1)
    }
}

/// The `(setting_id, default value)` pairs that a manifest declares: the keyword
/// first, then each declared setting in order.
pub open spec fn declared_defaults(m: ExtensionManifest) -> Seq<(Seq<char>, Seq<char>)> {
    seq![("keyword"@, m.keyword@)] + match m.settings {
        Some(v) => v@.map_values(|s: ExtensionManifestSetting| (s.id@, s.default_value@)),
        None => Seq::empty(),
    }
}

/// The rows after reconciling one manifest into `rows`.
pub open spec fn reconciled(rows: Seq<SettingRow>, m: ExtensionManifest) -> Seq<SettingRow> {
    with_rows(rows, m.id@, declared_defaults(m))
}

/// The rows after reconciling each manifest of `ms` in order.
pub open spec fn reconciled_all(rows: Seq<SettingRow>, ms: Seq<ExtensionManifest>) -> Seq<
    SettingRow,
>
    decreases ms.len(),
{
    if ms.len() == 0 {
        rows
    } else {
        reconciled(reconciled_all(rows, ms.drop_last()), ms.last())
    }
}

/// The manifests that parsed, in the order in which they were found.
pub open spec fn parsed_manifests(s: Seq<Option<ExtensionManifest>>) -> Seq<ExtensionManifest>
    decreases s.len(),
{
    if s.len() == 0 {
        Seq::empty()
    } else {
        let rest = parsed_manifests(s.drop_last());
        match s.last() {
            Some(m) => rest.push(m),
            None => rest,
        }
    }
}

/// The catalog that a read of the index file yields: the decoded one, or an
/// empty one when the file did not decode.
pub fn catalog_or_empty(decoded: Option<Vec<ExtensionManifest>>) -> (c: Vec<ExtensionManifest>)
    ensures
        match decoded {
            Some(d) => c == d,
            None => c@.len() == 0,
        },
{
    match decoded {
        Some(d) => d,
        None => Vec::new(),
    }
}

/// Tells whether a row for `(ext, id)` is stored.
pub fn has_setting(rows: &Vec<ExtensionSetting>, ext: &String, id: &String) -> (r: bool)
    ensures
        r == has_row(rows_of(rows@), ext@, id@),
{
    let mut i: usize = 0;
    while i < rows.len()
        invariant
            i <= rows.len(),
            forall|j: int| 0 <= j < i ==> !row_is(#[trigger] rows_of(rows@)[j], ext@, id@),
        decreases rows.len() - i,
    {
        if rows[i].extension_id == *ext && rows[i].setting_id == *id {
            assert(row_is(rows_of(rows@)[i as int], ext@, id@));
            return true;
        }
        i += 1;
    }
    false
}

/// Stores `(ext, id, value)` unless a row for `(ext, id)` is already stored.
fn add_missing_row(rows: &mut Vec<ExtensionSetting>, ext: &String, id: &String, value: &String)
    ensures
        rows_of(final(rows)@) == with_row(rows_of(old(rows)@), ext@, id@, value@),
{
    if !has_setting(rows, ext, id) {
        let row = ExtensionSetting {
            extension_id: ext.clone(),
            setting_id: id.clone(),
            setting_value: value.clone(),
        };
        let ghost before = rows@;
        rows.push(row);
        assert(rows_of(rows@) =~= rows_of(before).push(row@));
    }
}

/// Merges the settings that `manifest` declares into `settings`: each declared
/// setting that has no row yet gets one holding its default, the keyword included;
/// every row already stored stays as it is.
pub fn reconcile_extension_settings(settings: &mut Settings, manifest: &ExtensionManifest)
    ensures
        final(settings).rows() == reconciled(old(settings).rows(), *manifest),
        *final(settings) == (Settings { extensions: final(settings).extensions, ..*old(settings) }),
{
    let ghost decl = declared_defaults(*manifest);
    let ghost r0 = old(settings).rows();
    let keyword = String::from_str("keyword");
    add_missing_row(&mut settings.extensions, &manifest.id, &keyword, &manifest.keyword);
    assert(decl.take(1).drop_last() =~= Seq::<(Seq<char>, Seq<char>)>::empty());
    assert(decl[0] == ("keyword"@, manifest.keyword@));
    assert(decl.take(1).last() == decl[0]);
    assert(with_rows(r0, manifest.id@, decl.take(1).drop_last()) == r0);
    assert(settings.rows() == with_rows(r0, manifest.id@, decl.take(1)));
    match &manifest.settings {
        Some(declared) => {
            let mut i: usize = 0;
            while i < declared.len()
                invariant
                    i <= declared.len(),
                    decl == declared_defaults(*manifest),
                    manifest.settings == Some(*declared),
                    decl.len() == declared.len() + 1,
                    settings.rows() == with_rows(r0, manifest.id@, decl.take(i + 1)),
                    *settings == (Settings { extensions: settings.extensions, ..*old(settings) }),
                decreases declared.len() - i,
            {
                let s = &declared[i];
                add_missing_row(&mut settings.extensions, &manifest.id, &s.id, &s.default_value);
                assert(decl.take(i + 2).drop_last() =~= decl.take(i + 1));
                assert(decl[i + 1] == (s.id@, s.default_value@));
                i += 1;
            }
            assert(decl.take(i + 1) =~= decl);
        },
        None => {
            assert(decl.take(1) =~= decl);
        },
    }
}

/// Builds the extension catalog from the manifests found by a scan, where `None`
/// stands for a file that did not parse: those are skipped, and each manifest that
/// parsed is reconciled into `settings` in order and kept in the catalog.
pub fn index_extensions(settings: &mut Settings, scanned: Vec<Option<ExtensionManifest>>) -> (catalog:
    Vec<ExtensionManifest>)
    ensures
        catalog@ == parsed_manifests(scanned@),
        final(settings).rows() == reconciled_all(old(settings).rows(), catalog@),
        *final(settings) == (Settings { extensions: final(settings).extensions, ..*old(settings) }),
{
    let ghost orig = scanned@;
    let ghost r0 = old(settings).rows();
    let mut scanned = scanned;
    let mut catalog: Vec<ExtensionManifest> = Vec::new();
    let ghost mut k: int = 0;
    assert(orig.take(0) =~= Seq::<Option<ExtensionManifest>>::empty());
    while scanned.len() > 0
        invariant
            0 <= k <= orig.len(),
            scanned@ == orig.subrange(k, orig.len() as int),
            catalog@ == parsed_manifests(orig.take(k)),
            settings.rows() == reconciled_all(r0, catalog@),
            *settings == (Settings { extensions: settings.extensions, ..*old(settings) }),
        decreases scanned.len(),
    {
        let item = scanned.remove(0);
        assert(item == orig[k]);
        assert(orig.take(k + 1).drop_last() =~= orig.take(k));
        match item {
            Some(m) => {
                reconcile_extension_settings(settings, &m);
                let ghost before = catalog@;
                catalog.push(m);
                assert(catalog@.drop_last() =~= before);
            },
            None => {},
        }
        proof {
            k = k + 1;
        }
        assert(scanned@ =~= orig.subrange(k, orig.len() as int));
    }
    assert(orig.take(k) =~= orig);
    catalog
}

/// The value of the first row stored for `(ext, id)`, if any.
pub open spec fn setting_lookup(rows: Seq<SettingRow>, ext: Seq<char>, id: Seq<char>) -> Option<
    Seq<char>,
>
    decreases rows.len(),
{
    if rows.len() == 0 {
        None
    } else if row_is(rows[0], ext, id) {
        Some(rows[0].setting_value)
    } else {
        setting_lookup(rows.drop_first(), ext, id)
    }
}

/// The value that `settings` stores for one setting of one extension: that of the
/// first matching row, or `None` when no row matches.
pub fn get_extension_setting(settings: &Settings, extension_id: &str, setting_id: &str) -> (r:
    Option<String>)
    ensures
        match r {
            Some(v) => setting_lookup(settings.rows(), extension_id@, setting_id@) == Some(v@),
            None => setting_lookup(settings.rows(), extension_id@, setting_id@) is None,
        },
{
    let ext = String::from_str(extension_id);
    let id = String::from_str(setting_id);
    let ghost rows = settings.rows();
    let mut i: usize = 0;
    assert(rows.subrange(0, rows.len() as int) =~= rows);
    while i < settings.extensions.len()
        invariant
            i <= settings.extensions.len(),
            rows == settings.rows(),
            ext@ == extension_id@,
            id@ == setting_id@,
            setting_lookup(rows, ext@, id@) == setting_lookup(
                rows.subrange(i as int, rows.len() as int),
                ext@,
                id@,
            ),
        decreases settings.extensions.len() - i,
    {
        let row = &settings.extensions[i];
        let ghost rest = rows.subrange(i as int, rows.len() as int);
        assert(rest[0] == row@);
        if row.extension_id == ext && row.setting_id == id {
            return Some(row.setting_value.clone());
        }
        assert(rest.drop_first() =~= rows.subrange(i + 1, rows.len() as int));
        i += 1;
    }
    None
}

proof fn lemma_lookup_first(rows: Seq<SettingRow>, ext: Seq<char>, id: Seq<char>, i: int)
    requires
        0 <= i < rows.len(),
        row_is(rows[i], ext, id),
        forall|j: int| 0 <= j < i ==> !row_is(#[trigger] rows[j], ext, id),
    ensures
        setting_lookup(rows, ext, id) == Some(rows[i].setting_value),
    decreases i,
{
    if i > 0 {
        let d = rows.drop_first();
        assert forall|j: int| 0 <= j < i - 1 implies !row_is(#[trigger] d[j], ext, id) by {
            assert(d[j] == rows[j + 1]);
        }
        assert(!row_is(rows[0], ext, id));
        lemma_lookup_first(d, ext, id, i - 1);
    }
}

proof fn lemma_lookup_none(rows: Seq<SettingRow>, ext: Seq<char>, id: Seq<char>)
    requires
        !has_row(rows, ext, id),
    ensures
        setting_lookup(rows, ext, id) is None,
    decreases rows.len(),
{
    if rows.len() > 0 {
        let d = rows.drop_first();
        assert(!row_is(rows[0], ext, id));
        assert forall|j: int| 0 <= j < d.len() implies !row_is(#[trigger] d[j], ext, id) by {
            assert(d[j] == rows[j + 1]);
        }
        lemma_lookup_none(d, ext, id);
    }
}

/// When exactly one row is stored for `(extension_id, setting_id)`, the lookup
/// gives that row's value.
pub proof fn lemma_lookup_single_match(
    settings: Settings,
    extension_id: Seq<char>,
    setting_id: Seq<char>,
    i: int,
)
    requires
        0 <= i < settings.rows().len(),
        row_is(settings.rows()[i], extension_id, setting_id),
        forall|j: int|
            0 <= j < settings.rows().len() && row_is(#[trigger] settings.rows()[j], extension_id, setting_id)
                ==> j == i,
    ensures
        setting_lookup(settings.rows(), extension_id, setting_id) == Some(
            settings.rows()[i].setting_value,
        ),
{
    lemma_lookup_first(settings.rows(), extension_id, setting_id, i);
}

/// When no row is stored for `(extension_id, setting_id)`, the lookup gives nothing.
pub proof fn lemma_lookup_no_match(settings: Settings, extension_id: Seq<char>, setting_id: Seq<char>)
    requires
        !has_row(settings.rows(), extension_id, setting_id),
    ensures
        setting_lookup(settings.rows(), extension_id, setting_id) is None,
{
    lemma_lookup_none(settings.rows(), extension_id, setting_id);
}

/// A manifest file found by a scan: the directory that holds it, and the manifest
/// if the file parsed.
#[derive(Debug, Clone, PartialEq, Eq)]
pub struct ManifestFile {
    pub dir: String,
    pub manifest: Option<ExtensionManifest>,
}

/// The directory of the first file whose manifest parsed and has the given id.
pub open spec fn dir_lookup(files: Seq<ManifestFile>, id: Seq<char>) -> Option<Seq<char>>
    decreases files.len(),
{
    if files.len() == 0 {
        None
    } else if files[0].manifest is Some && files[0].manifest->0.id@ == id {
        Some(files[0].dir@)
    } else {
        dir_lookup(files.drop_first(), id)
    }
}

/// Finds the directory of an extension among the scanned manifest files: the first
/// one whose manifest parsed and carries `extension_id`, or `None`.
pub fn get_extension_dir(files: &Vec<ManifestFile>, extension_id: &str) -> (r: Option<String>)
    ensures
        match r {
            Some(d) => dir_lookup(files@, extension_id@) == Some(d@),
            None => dir_lookup(files@, extension_id@) is None,
        },
{
    let ext = String::from_str(extension_id);
    let mut i: usize = 0;
    assert(files@.subrange(0, files@.len() as int) =~= files@);
    while i < files.len()
        invariant
            i <= files.len(),
            ext@ == extension_id@,
            dir_lookup(files@, ext@) == dir_lookup(files@.subrange(i as int, files@.len() as int), ext@),
        decreases files.len() - i,
    {
        let f = &files[i];
        let ghost rest = files@.subrange(i as int, files@.len() as int);
        assert(rest[0] == *f);
        match &f.manifest {
            Some(m) => {
                if m.id == ext {
                    return Some(f.dir.clone());
                }
            },
            None => {},
        }
        assert(rest.drop_first() =~= files@.subrange(i + 1, files@.len() as int));
        i += 1;
    }
    None
}

/// The rows of `b` start with the rows of `a`, unchanged.
pub open spec fn extends(a: Seq<SettingRow>, b: Seq<SettingRow>) -> bool {
    a.len() <= b.len() && forall|i: int| 0 <= i < a.len() ==> #[trigger] b[i] == a[i]
}

proof fn lemma_has_row_extends(a: Seq<SettingRow>, b: Seq<SettingRow>, ext: Seq<char>, id: Seq<char>)
    requires
        extends(a, b),
        has_row(a, ext, id),
    ensures
        has_row(b, ext, id),
{
    let i = choose|i: int| 0 <= i < a.len() && row_is(#[trigger] a[i], ext, id);
    assert(row_is(b[i], ext, id));
}

proof fn lemma_with_rows_extends(rows: Seq<SettingRow>, ext: Seq<char>, decl: Seq<(Seq<char>, Seq<char>)>)
    ensures
        extends(rows, with_rows(rows, ext, decl)),
        forall|j: int|
            rows.len() <= j < with_rows(rows, ext, decl).len() ==> {
                let r = #[trigger] with_rows(rows, ext, decl)[j];
                r.extension_id == ext && !has_row(rows, r.extension_id, r.setting_id)
            },
    decreases decl.len(),
{
    if decl.len() > 0 {
        let p = with_rows(rows, ext, decl.drop_last());
        lemma_with_rows_extends(rows, ext, decl.drop_last());
        let (k, v) = decl.last();
        if !has_row(p, ext, k) {
            let r = with_rows(rows, ext, decl);
            assert(r == p.push(SettingRow { extension_id: ext, setting_id: k, setting_value: v }));
            if has_row(rows, ext, k) {
                lemma_has_row_extends(rows, p, ext, k);
            }
        }
    }
}

proof fn lemma_with_rows_covers(rows: Seq<SettingRow>, ext: Seq<char>, decl: Seq<(Seq<char>, Seq<char>)>)
    ensures
        forall|k: int| 0 <= k < decl.len() ==> has_row(with_rows(rows, ext, decl), ext, #[trigger] decl[k].0),
    decreases decl.len(),
{
    if decl.len() > 0 {
        let d = decl.drop_last();
        let p = with_rows(rows, ext, d);
        let r = with_rows(rows, ext, decl);
        lemma_with_rows_covers(rows, ext, d);
        let (k, v) = decl.last();
        if !has_row(p, ext, k) {
            let n = SettingRow { extension_id: ext, setting_id: k, setting_value: v };
            assert(r == p.push(n));
            assert(row_is(r[p.len() as int], ext, k));
        }
        assert(extends(p, r));
        assert forall|j: int| 0 <= j < decl.len() implies has_row(r, ext, #[trigger] decl[j].0) by {
            if j < d.len() {
                assert(d[j] == decl[j]);
                lemma_has_row_extends(p, r, ext, decl[j].0);
            }
        }
    }
}

proof fn lemma_with_rows_stable(rows: Seq<SettingRow>, ext: Seq<char>, decl: Seq<(Seq<char>, Seq<char>)>)
    requires
        forall|k: int| 0 <= k < decl.len() ==> has_row(rows, ext, #[trigger] decl[k].0),
    ensures
        with_rows(rows, ext, decl) == rows,
    decreases decl.len(),
{
    if decl.len() > 0 {
        let d = decl.drop_last();
        assert forall|k: int| 0 <= k < d.len() implies has_row(rows, ext, #[trigger] d[k].0) by {
            assert(d[k] == decl[k]);
        }
        lemma_with_rows_stable(rows, ext, d);
        assert(has_row(rows, ext, decl[decl.len() - 1].0));
    }
}

proof fn lemma_with_rows_unique(rows: Seq<SettingRow>, ext: Seq<char>, decl: Seq<(Seq<char>, Seq<char>)>)
    requires
        unique_rows(rows),
    ensures
        unique_rows(with_rows(rows, ext, decl)),
    decreases decl.len(),
{
    if decl.len() > 0 {
        let p = with_rows(rows, ext, decl.drop_last());
        lemma_with_rows_unique(rows, ext, decl.drop_last());
        let (k, v) = decl.last();
        if !has_row(p, ext, k) {
            let n = SettingRow { extension_id: ext, setting_id: k, setting_value: v };
            let r = p.push(n);
            assert forall|i: int, j: int|
                0 <= i < r.len() && 0 <= j < r.len() && i != j implies !row_is(
                #[trigger] r[i],
                #[trigger] r[j].extension_id,
                r[j].setting_id,
            ) by {
                if i == p.len() && row_is(r[i], r[j].extension_id, r[j].setting_id) {
                    assert(row_is(p[j], ext, k));
                }
                if j == p.len() && row_is(r[i], r[j].extension_id, r[j].setting_id) {
                    assert(row_is(p[i], ext, k));
                }
            }
        }
    }
}

/// Reconciling the same manifest a second time changes nothing: the operation
/// is idempotent.
pub proof fn lemma_reconcile_idempotent(settings: Settings, manifest: ExtensionManifest)
    ensures
        reconciled(reconciled(settings.rows(), manifest), manifest) == reconciled(
            settings.rows(),
            manifest,
        ),
{
    let d = declared_defaults(manifest);
    lemma_with_rows_covers(settings.rows(), manifest.id@, d);
    lemma_with_rows_stable(reconciled(settings.rows(), manifest), manifest.id@, d);
}

/// Reconciling never alters a stored row: every row stays at its place with its
/// value, and each added row belongs to the manifest's extension and is for a pair
/// that had no row before.
pub proof fn lemma_reconcile_only_adds(settings: Settings, manifest: ExtensionManifest)
    ensures
        extends(settings.rows(), reconciled(settings.rows(), manifest)),
        forall|j: int|
            settings.rows().len() <= j < reconciled(settings.rows(), manifest).len() ==> {
                let r = #[trigger] reconciled(settings.rows(), manifest)[j];
                r.extension_id == manifest.id@ && !has_row(
                    settings.rows(),
                    r.extension_id,
                    r.setting_id,
                )
            },
{
    lemma_with_rows_extends(settings.rows(), manifest.id@, declared_defaults(manifest));
}

/// After reconciling, the keyword and every setting that the manifest declares
/// have a row for the manifest's extension.
pub proof fn lemma_reconcile_covers(settings: Settings, manifest: ExtensionManifest)
    ensures
        forall|k: int|
            0 <= k < declared_defaults(manifest).len() ==> has_row(
                reconciled(settings.rows(), manifest),
                manifest.id@,
                #[trigger] declared_defaults(manifest)[k].0,
            ),
        has_row(reconciled(settings.rows(), manifest), manifest.id@, "keyword"@),
{
    let d = declared_defaults(manifest);
    lemma_with_rows_covers(settings.rows(), manifest.id@, d);
    assert(d[0].0 == "keyword"@);
}

/// Reconciling keeps the rows' `(extension_id, setting_id)` pairs unique.
pub proof fn lemma_reconcile_keeps_unique(settings: Settings, manifest: ExtensionManifest)
    requires
        unique_rows(settings.rows()),
    ensures
        unique_rows(reconciled(settings.rows(), manifest)),
{
    lemma_with_rows_unique(settings.rows(), manifest.id@, declared_defaults(manifest));
}

/// Indexing several manifests keeps every stored row unchanged, and each added row
/// belongs to one of the manifests.
pub proof fn lemma_reconcile_all_only_adds(settings: Settings, manifests: Seq<ExtensionManifest>)
    ensures
        extends(settings.rows(), reconciled_all(settings.rows(), manifests)),
        forall|j: int|
            settings.rows().len() <= j < reconciled_all(settings.rows(), manifests).len() ==> exists|
                m: int,
            |
                0 <= m < manifests.len() && (#[trigger] reconciled_all(
                    settings.rows(),
                    manifests,
                )[j]).extension_id == manifests[m].id@,
    decreases manifests.len(),
{
    if manifests.len() > 0 {
        let ms = manifests.drop_last();
        let last = manifests.last();
        let rows = settings.rows();
        let p = reconciled_all(rows, ms);
        let r = reconciled_all(rows, manifests);
        lemma_reconcile_all_only_adds(settings, ms);
        lemma_with_rows_extends(p, last.id@, declared_defaults(last));
        assert forall|j: int| rows.len() <= j < r.len() implies exists|m: int|
            0 <= m < manifests.len() && (#[trigger] r[j]).extension_id == manifests[m].id@ by {
            if j < p.len() {
                let m = choose|m: int| 0 <= m < ms.len() && (#[trigger] p[j]).extension_id == ms[m].id@;
                assert(ms[m] == manifests[m]);
            } else {
                assert(r[j].extension_id == manifests[manifests.len() - 1].id@);
            }
        }
    }
}

/// Indexing several manifests keeps the rows' `(extension_id, setting_id)` pairs
/// unique.
pub proof fn lemma_reconcile_all_keeps_unique(settings: Settings, manifests: Seq<ExtensionManifest>)
    requires
        unique_rows(settings.rows()),
    ensures
        unique_rows(reconciled_all(settings.rows(), manifests)),
    decreases manifests.len(),
{
    if manifests.len() > 0 {
        let ms = manifests.drop_last();
        lemma_reconcile_all_keeps_unique(settings, ms);
        let last = manifests.last();
        lemma_with_rows_unique(reconciled_all(settings.rows(), ms), last.id@, declared_defaults(last));
    }
}

} // verus!
