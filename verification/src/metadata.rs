//! The dependency graph as `cargo metadata` prints it: the packages of the document, which of them
//! are the workspace's own, and where their manifests stand.
use vstd::prelude::*;
use crate::notices::{
    all_licences, bare_lines, ended, lemma_listed, listed, third_party, third_party_notices, Component, FileV,
    LicenceFile, Notices, Package, PackageV,
};
use crate::seqs::{keep, views};
use crate::text::{decimal, decimal_text, is_text, join2, join3, text_of, texts};

verus! {

/// A parsed JSON document.
#[verifier::external_type_specification]
#[verifier::external_body]
pub struct ExValue(serde_json::Value);

/// The strings that a JSON value holds, each under the JSON pointer that leads to it.
pub uninterp spec fn json_texts(value: serde_json::Value) -> Map<Seq<char>, Seq<char>>;

/// The lengths of the arrays that a JSON value holds, each under the JSON pointer that leads to it.
pub uninterp spec fn json_lists(value: serde_json::Value) -> Map<Seq<char>, nat>;

/// What `serde_json::from_slice` reads from bytes: the strings and the arrays' lengths of the value,
/// `None` where the bytes are no JSON document.
pub uninterp spec fn json_in(document: Seq<u8>) -> Option<(Map<Seq<char>, Seq<char>>, Map<Seq<char>, nat>)>;

/// `serde_json::from_slice` into a `Value`: what it reads, and whether it reads at all, is a function
/// of the bytes alone, named [`json_in`].
#[verifier::external_body]
fn parse(document: &[u8]) -> (r: Option<serde_json::Value>)
    ensures
        json_in(document@) == (match r {
            Some(value) => Some((json_texts(value), json_lists(value))),
            None => None,
        }),
{
    serde_json::from_slice(document).ok()
}

/// `Value::pointer`, then `Value::as_str`: the string under a JSON pointer, `None` where nothing or
/// something else stands there.
#[verifier::external_body]
fn text_at(value: &serde_json::Value, at: &str) -> (r: Option<String>)
    ensures
        text_of(r) == found(json_texts(*value), at@),
{
    value.pointer(at).and_then(serde_json::Value::as_str).map(str::to_owned)
}

/// `Value::pointer`, then `Value::as_array`: the length of the array under a JSON pointer, `None`
/// where nothing or something else stands there.
#[verifier::external_body]
fn len_at(value: &serde_json::Value, at: &str) -> (r: Option<usize>)
    ensures
        (match r {
            Some(n) => Some(n as nat),
            None => None,
        }) == found(json_lists(*value), at@),
{
    value.pointer(at).and_then(serde_json::Value::as_array).map(Vec::len)
}

/// What a map holds under a key.
pub open spec fn found<A>(m: Map<Seq<char>, A>, at: Seq<char>) -> Option<A> {
    if m.dom().contains(at) {
        Some(m[at])
    } else {
        None
    }
}

/// What a package entry of the document says, each field `None` where it is no string.
pub struct Entry {
    pub id: Option<String>,
    pub name: Option<String>,
    pub version: Option<String>,
    pub license: Option<String>,
    pub license_file: Option<String>,
    pub repository: Option<String>,
    pub manifest_path: Option<String>,
}

/// An [`Entry`] as a value.
pub struct EntryV {
    pub id: Option<Seq<char>>,
    pub name: Option<Seq<char>>,
    pub version: Option<Seq<char>>,
    pub license: Option<Seq<char>>,
    pub license_file: Option<Seq<char>>,
    pub repository: Option<Seq<char>>,
    pub manifest_path: Option<Seq<char>>,
}

impl View for Entry {
    type V = EntryV;

    open spec fn view(&self) -> EntryV {
        EntryV {
            id: text_of(self.id),
            name: text_of(self.name),
            version: text_of(self.version),
            license: text_of(self.license),
            license_file: text_of(self.license_file),
            repository: text_of(self.repository),
            manifest_path: text_of(self.manifest_path),
        }
    }
}

/// What the document says of the graph.
pub struct Metadata {
    /// The ids of the workspace's own packages; an entry that is no string is `None`.
    pub members: Vec<Option<String>>,
    pub packages: Vec<Entry>,
}

/// A [`Metadata`] as a value.
pub struct MetadataV {
    pub members: Seq<Option<Seq<char>>>,
    pub packages: Seq<EntryV>,
}

/// The characters of each string of a list that may lack some.
pub open spec fn member_ids(v: Seq<Option<String>>) -> Seq<Option<Seq<char>>> {
    v.map_values(|s: Option<String>| text_of(s))
}

impl View for Metadata {
    type V = MetadataV;

    open spec fn view(&self) -> MetadataV {
        MetadataV { members: member_ids(self.members@), packages: views(self.packages@) }
    }
}

// ------------------------------------------------------------------------- the document --

/// Where element `i` of a list stands.
pub open spec fn element_at(list: Seq<char>, i: nat) -> Seq<char> {
    list + "/"@ + decimal(i)
}

/// Where a field of package `i` stands.
pub open spec fn field_at(i: nat, field: Seq<char>) -> Seq<char> {
    element_at("/packages"@, i) + field
}

/// The length of a list, 0 where there is none.
pub open spec fn list_len(lists: Map<Seq<char>, nat>, at: Seq<char>) -> nat {
    match found(lists, at) {
        Some(n) => n,
        None => 0,
    }
}

/// What a document says of package `i`.
pub open spec fn entry_in(held: Map<Seq<char>, Seq<char>>, i: nat) -> EntryV {
    EntryV {
        id: found(held, field_at(i, "/id"@)),
        name: found(held, field_at(i, "/name"@)),
        version: found(held, field_at(i, "/version"@)),
        license: found(held, field_at(i, "/license"@)),
        license_file: found(held, field_at(i, "/license_file"@)),
        repository: found(held, field_at(i, "/repository"@)),
        manifest_path: found(held, field_at(i, "/manifest_path"@)),
    }
}

/// What a document that holds these strings and lists says of the graph: the elements of its
/// `workspace_members` and of its `packages`, in their order.
pub open spec fn metadata_in(held: Map<Seq<char>, Seq<char>>, lists: Map<Seq<char>, nat>) -> MetadataV {
    MetadataV {
        members: Seq::new(
            list_len(lists, "/workspace_members"@),
            |i: int| found(held, element_at("/workspace_members"@, i as nat)),
        ),
        packages: Seq::new(list_len(lists, "/packages"@), |i: int| entry_in(held, i as nat)),
    }
}

/// What the bytes of a document say of the graph, `None` where they are no JSON document.
pub open spec fn metadata_of(document: Seq<u8>) -> Option<MetadataV> {
    match json_in(document) {
        Some((held, lists)) => Some(metadata_in(held, lists)),
        None => None,
    }
}

fn element_text(list: &str, i: usize) -> (r: String)
    ensures
        r@ == element_at(list@, i as nat),
{
    join3(list, "/", decimal_text(i as u128).as_str())
}

fn field_text(value: &serde_json::Value, at: &str, field: &str) -> (r: Option<String>)
    ensures
        text_of(r) == found(json_texts(*value), at@ + field@),
{
    text_at(value, join2(at, field).as_str())
}

fn read_entry(value: &serde_json::Value, i: usize) -> (r: Entry)
    ensures
        r@ == entry_in(json_texts(*value), i as nat),
{
    let at = element_text("/packages", i);
    let at = at.as_str();
    Entry {
        id: field_text(value, at, "/id"),
        name: field_text(value, at, "/name"),
        version: field_text(value, at, "/version"),
        license: field_text(value, at, "/license"),
        license_file: field_text(value, at, "/license_file"),
        repository: field_text(value, at, "/repository"),
        manifest_path: field_text(value, at, "/manifest_path"),
    }
}

fn read_len(value: &serde_json::Value, at: &str) -> (r: usize)
    ensures
        r == list_len(json_lists(*value), at@),
{
    match len_at(value, at) {
        Some(n) => n,
        None => 0,
    }
}

/// Reads a `cargo metadata` document, `None` where it is no JSON document.
pub fn read_metadata(document: &[u8]) -> (r: Option<Metadata>)
    ensures
        metadata_of(document@) == (match r {
            Some(m) => Some(m@),
            None => None,
        }),
{
    let value = match parse(document) {
        Some(value) => value,
        None => return None,
    };
    let ghost said = metadata_in(json_texts(value), json_lists(value));
    let members_len: usize = read_len(&value, "/workspace_members");
    let mut members: Vec<Option<String>> = Vec::new();
    let mut i: usize = 0;
    while i < members_len
        invariant
            i <= members_len,
            said == metadata_in(json_texts(value), json_lists(value)),
            members_len == said.members.len(),
            members.len() == i,
            forall|k: int| 0 <= k < i ==> text_of(#[trigger] members[k]) == said.members[k],
        decreases members_len - i,
    {
        members.push(text_at(&value, element_text("/workspace_members", i).as_str()));
        i = i + 1;
    }
    let packages_len: usize = read_len(&value, "/packages");
    let mut packages: Vec<Entry> = Vec::new();
    let mut j: usize = 0;
    while j < packages_len
        invariant
            j <= packages_len,
            said == metadata_in(json_texts(value), json_lists(value)),
            packages_len == said.packages.len(),
            packages.len() == j,
            forall|k: int| 0 <= k < j ==> (#[trigger] packages[k])@ == said.packages[k],
        decreases packages_len - j,
    {
        packages.push(read_entry(&value, j));
        j = j + 1;
    }
    let r = Metadata { members, packages };
    assert(r@.members =~= said.members);
    assert(r@.packages =~= said.packages);
    Some(r)
}

// ------------------------------------------------------------------------- the packages --

/// A text, empty where there is none.
pub open spec fn or_empty(s: Option<Seq<char>>) -> Seq<char> {
    match s {
        Some(t) => t,
        None => Seq::empty(),
    }
}

/// The files of package `i`, none where the list is too short.
pub open spec fn files_at(files: Seq<Seq<FileV>>, i: int) -> Seq<FileV> {
    if 0 <= i < files.len() {
        files[i]
    } else {
        Seq::empty()
    }
}

impl MetadataV {
    /// The package that entry `i` describes, with the files found beside its manifest.
    pub open spec fn package(self, i: int, files: Seq<FileV>) -> PackageV {
        let e = self.packages[i];
        PackageV {
            name: or_empty(e.name),
            version: or_empty(e.version),
            license: e.license,
            license_file: e.license_file,
            repository: or_empty(e.repository),
            member: self.members.contains(e.id),
            files,
        }
    }

    /// The packages among the first `n` entries: those that have an id, in their order.
    pub open spec fn packages_to(self, files: Seq<Seq<FileV>>, n: int) -> Seq<PackageV>
        decreases n,
    {
        if n <= 0 {
            Seq::empty()
        } else if self.packages[n - 1].id is Some {
            self.packages_to(files, n - 1).push(self.package(n - 1, files_at(files, n - 1)))
        } else {
            self.packages_to(files, n - 1)
        }
    }

    /// The packages of the document, `files` the files beside each entry's manifest.
    pub open spec fn all_packages(self, files: Seq<Seq<FileV>>) -> Seq<PackageV> {
        self.packages_to(files, self.packages.len() as int)
    }

    /// Where each entry's manifest stands, empty where that is not said.
    pub open spec fn manifest_paths(self) -> Seq<Seq<char>> {
        self.packages.map_values(|e: EntryV| or_empty(e.manifest_path))
    }
}

/// The files of each list of a list.
pub open spec fn file_lists(files: Seq<Vec<LicenceFile>>) -> Seq<Seq<FileV>> {
    files.map_values(|v: Vec<LicenceFile>| views(v@))
}

fn text_or_empty(s: &Option<String>) -> (r: String)
    ensures
        r@ == or_empty(text_of(*s)),
{
    match s {
        Some(t) => t.clone(),
        None => String::new(),
    }
}

fn copy_text(s: &Option<String>) -> (r: Option<String>)
    ensures
        text_of(r) == text_of(*s),
{
    match s {
        Some(t) => Some(t.clone()),
        None => None,
    }
}

fn names_member(members: &Vec<Option<String>>, id: &str) -> (r: bool)
    ensures
        r == member_ids(members@).contains(Some(id@)),
{
    let ghost ids = member_ids(members@);
    let mut i: usize = 0;
    while i < members.len()
        invariant
            i <= members.len(),
            ids == member_ids(members@),
            forall|k: int| 0 <= k < i ==> #[trigger] ids[k] != Some(id@),
        decreases members.len() - i,
    {
        assert(ids[i as int] == text_of(members@[i as int]));
        if is_text(&members[i], id) {
            return true;
        }
        i = i + 1;
    }
    false
}

/// Whether entry `i` describes a package of someone else's: it has an id, and the workspace does not
/// list that id.
pub open spec fn is_third_party(m: MetadataV, i: int) -> bool {
    m.packages[i].id is Some && !m.members.contains(m.packages[i].id)
}

proof fn lemma_packages_to(m: MetadataV, files: Seq<Seq<FileV>>, n: int, p: PackageV)
    requires
        0 <= n <= m.packages.len(),
    ensures
        keep(m.packages_to(files, n), third_party()).contains(p) <==> exists|i: int|
            0 <= i < n && #[trigger] is_third_party(m, i) && p == m.package(i, files_at(files, i)),
    decreases n,
{
    if n > 0 {
        lemma_packages_to(m, files, n - 1, p);
        let before = m.packages_to(files, n - 1);
        let last = m.package(n - 1, files_at(files, n - 1));
        if m.packages[n - 1].id is Some {
            assert(before.push(last).drop_last() =~= before);
            let rest = keep(before, third_party());
            assert(third_party()(last) == is_third_party(m, n - 1));
            if is_third_party(m, n - 1) {
                assert(rest.push(last)[rest.len() as int] == last);
                assert forall|x: PackageV| rest.contains(x) implies #[trigger] rest.push(last).contains(x) by {
                    let k = choose|k: int| 0 <= k < rest.len() && rest[k] == x;
                    assert(rest.push(last)[k] == x);
                }
            }
        }
    }
}

/// The notices list exactly the packages of a document that are someone else's: those with an id
/// that the workspace does not list.
pub proof fn law_third_parties_are_listed(m: MetadataV, files: Seq<Seq<FileV>>, p: PackageV)
    ensures
        listed(m.all_packages(files)).contains(p) <==> exists|i: int|
            0 <= i < m.packages.len() && #[trigger] is_third_party(m, i) && p == m.package(i, files_at(files, i)),
{
    lemma_packages_to(m, files, m.packages.len() as int, p);
    lemma_listed(m.all_packages(files), p);
}

impl Metadata {
    /// The packages of the document: those entries that have an id, in their order. `files` are the
    /// files beside each entry's manifest.
    pub fn all_packages(&self, files: Vec<Vec<LicenceFile>>) -> (r: Vec<Package>)
        ensures
            views(r@) == self@.all_packages(file_lists(files@)),
    {
        let ghost given = file_lists(files@);
        let ghost m = self@;
        let mut files = files;
        let mut out: Vec<Package> = Vec::new();
        assert(views(out@) =~= m.packages_to(given, 0));
        let mut i: usize = 0;
        while i < self.packages.len()
            invariant
                i <= self.packages.len(),
                m == self@,
                given.len() == files.len(),
                forall|k: int| i <= k < files.len() ==> views((#[trigger] files[k])@) == given[k],
                views(out@) == m.packages_to(given, i as int),
            decreases self.packages.len() - i,
        {
            let e = &self.packages[i];
            assert(m.packages[i as int] == e@);
            let mut own: Vec<LicenceFile> = Vec::new();
            if i < files.len() {
                std::mem::swap(&mut own, &mut files[i]);
            }
            assert(views(own@) =~= files_at(given, i as int));
            let ghost before = out@;
            match &e.id {
                Some(id) => {
                    let p = Package {
                        name: text_or_empty(&e.name),
                        version: text_or_empty(&e.version),
                        license: copy_text(&e.license),
                        license_file: copy_text(&e.license_file),
                        repository: text_or_empty(&e.repository),
                        member: names_member(&self.members, id.as_str()),
                        files: own,
                    };
                    assert(p@ == m.package(i as int, files_at(given, i as int)));
                    out.push(p);
                    assert(views(out@) =~= views(before).push(p@));
                },
                None => {},
            }
            i = i + 1;
        }
        out
    }

    /// Where each entry's manifest stands, empty where that is not said.
    pub fn manifest_paths(&self) -> (r: Vec<String>)
        ensures
            texts(r@) == self@.manifest_paths(),
    {
        let ghost m = self@;
        let mut out: Vec<String> = Vec::new();
        let mut i: usize = 0;
        while i < self.packages.len()
            invariant
                i <= self.packages.len(),
                m == self@,
                out.len() == i,
                forall|k: int| 0 <= k < i ==> (#[trigger] out[k])@ == or_empty(m.packages[k].manifest_path),
            decreases self.packages.len() - i,
        {
            assert(m.packages[i as int] == self.packages@[i as int]@);
            out.push(text_or_empty(&self.packages[i].manifest_path));
            i = i + 1;
        }
        assert(texts(out@) =~= m.manifest_paths());
        out
    }
}

/// The packages of a `cargo metadata` document, `None` where it is no JSON document. `files` are the
/// files beside each entry's manifest.
pub fn metadata_packages(document: &[u8], files: Vec<Vec<LicenceFile>>) -> (r: Option<Vec<Package>>)
    ensures
        match (r, metadata_of(document@)) {
            (Some(packages), Some(m)) => views(packages@) == m.all_packages(file_lists(files@)),
            (None, None) => true,
            _ => false,
        },
{
    match read_metadata(document) {
        Some(m) => Some(m.all_packages(files)),
        None => None,
    }
}

/// The third-party notices of the app that a `cargo metadata` document describes, `None` where it is
/// no JSON document. `files` are the files beside each entry's manifest.
pub fn metadata_notices(document: &[u8], files: Vec<Vec<LicenceFile>>, comps: &Vec<Component>) -> (r: Option<
    Notices,
>)
    ensures
        match (r, metadata_of(document@)) {
            (Some(n), Some(m)) => {
                let pkgs = listed(m.all_packages(file_lists(files@)));
                let lines = crate::notices::document(pkgs, views(comps@));
                &&& n.text@ == ended(lines, lines.len() as int)
                &&& n.crates == pkgs.len()
                &&& n.texts == all_licences(pkgs, views(comps@)).len()
                &&& n.without_text == bare_lines(pkgs, pkgs.len() as int).len()
            },
            (None, None) => true,
            _ => false,
        },
{
    match metadata_packages(document, files) {
        Some(packages) => Some(third_party_notices(packages, comps)),
        None => None,
    }
}

} // verus!
