//! The third-party notices the About screen shows: what the app is built from, under which
//! licence, and each licence text once.
use vstd::prelude::*;
use crate::seqs::{first_from, first_pos, keep, lemma_first_from, lemma_keep_step, retain_by, views};
use crate::sorting::{
    arrange, arranged, ints, key_order, keys_of, law_pair_order, pair_order, sorted_order, sorted_pairs,
};
use crate::text::{
    chars_le, chars_of, decimal, decimal_text, join2, join3, lemma_lex_le_antisymmetric, lemma_lex_le_total,
    lemma_lex_le_transitive, lex_le, lowercase, lowercase_of, push_char, same_text, text_of, texts, trim, trimmed,
};

verus! {

/// How long the rules between the document's sections are.
pub const RULE_LEN: usize = 76;

/// A file found beside a package's manifest.
pub struct LicenceFile {
    pub name: String,
    pub text: String,
}

pub struct FileV {
    pub name: Seq<char>,
    pub text: Seq<char>,
}

impl View for LicenceFile {
    type V = FileV;

    open spec fn view(&self) -> FileV {
        FileV { name: self.name@, text: self.text@ }
    }
}

/// A package of the dependency graph.
pub struct Package {
    pub name: String,
    pub version: String,
    pub license: Option<String>,
    pub license_file: Option<String>,
    /// Where its source is, empty where that is not said.
    pub repository: String,
    /// One of the app's own packages.
    pub member: bool,
    pub files: Vec<LicenceFile>,
}

/// A [`Package`] as a value.
pub struct PackageV {
    pub name: Seq<char>,
    pub version: Seq<char>,
    pub license: Option<Seq<char>>,
    pub license_file: Option<Seq<char>>,
    pub repository: Seq<char>,
    pub member: bool,
    pub files: Seq<FileV>,
}

impl View for Package {
    type V = PackageV;

    open spec fn view(&self) -> PackageV {
        PackageV {
            name: self.name@,
            version: self.version@,
            license: text_of(self.license),
            license_file: text_of(self.license_file),
            repository: self.repository@,
            member: self.member,
            files: views(self.files@),
        }
    }
}

/// A component that is bundled with the app and is no package.
pub struct Component {
    pub label: String,
    pub blurb: String,
    pub url: String,
    pub file: Option<LicenceFile>,
}

/// A [`Component`] as a value.
pub struct ComponentV {
    pub label: Seq<char>,
    pub blurb: Seq<char>,
    pub url: Seq<char>,
    pub file: Option<FileV>,
}

impl View for Component {
    type V = ComponentV;

    open spec fn view(&self) -> ComponentV {
        ComponentV {
            label: self.label@,
            blurb: self.blurb@,
            url: self.url@,
            file: match self.file {
                Some(f) => Some(f@),
                None => None,
            },
        }
    }
}

/// A licence text, the name of the first file that held it, and everything it applies to.
pub struct Licence {
    pub text: String,
    pub file: String,
    pub holders: Vec<String>,
}

/// A [`Licence`] as a value.
pub struct LicenceV {
    pub text: Seq<char>,
    pub file: Seq<char>,
    pub holders: Seq<Seq<char>>,
}

impl View for Licence {
    type V = LicenceV;

    open spec fn view(&self) -> LicenceV {
        LicenceV { text: self.text@, file: self.file@, holders: texts(self.holders@) }
    }
}

// ------------------------------------------------------------------- the licence files --

/// Whether `word` occurs in `s`.
pub open spec fn mentions(s: Seq<char>, word: Seq<char>) -> bool {
    exists|i: int| 0 <= i && i + word.len() <= s.len() && #[trigger] s.subrange(i, i + word.len()) == word
}

/// Whether a file, by its lower-case name, holds a licence.
pub open spec fn names_licence(lower: Seq<char>) -> bool {
    ||| mentions(lower, "license"@)
    ||| mentions(lower, "licence"@)
    ||| mentions(lower, "copying"@)
    ||| mentions(lower, "notice"@)
    ||| mentions(lower, "unlicense"@)
    ||| mentions(lower, "copyright"@)
}

fn occurs_at(s: &Vec<char>, word: &Vec<char>, at: usize) -> (r: bool)
    requires
        at + word.len() <= s.len(),
    ensures
        r == (s@.subrange(at as int, at + word.len()) == word@),
{
    let mut k: usize = 0;
    while k < word.len()
        invariant
            at + word.len() <= s.len(),
            k <= word.len(),
            forall|j: int| 0 <= j < k ==> s@[at + j] == word@[j],
        decreases word.len() - k,
    {
        if s[at + k] != word[k] {
            assert(s@.subrange(at as int, at + word.len())[k as int] != word@[k as int]);
            return false;
        }
        k = k + 1;
    }
    assert(s@.subrange(at as int, at + word.len()) =~= word@);
    true
}

fn occurs(s: &Vec<char>, word: &str) -> (r: bool)
    ensures
        r == mentions(s@, word@),
{
    let letters = chars_of(word);
    let n: usize = s.len();
    let m: usize = letters.len();
    if m > n {
        return false;
    }
    let mut at: usize = 0;
    while at < n - m
        invariant
            n == s.len(),
            m == letters.len(),
            letters@ == word@,
            m <= n,
            at <= n - m,
            forall|i: int| 0 <= i < at ==> #[trigger] s@.subrange(i, i + word@.len()) != word@,
        decreases n - m - at,
    {
        if occurs_at(s, &letters, at) {
            return true;
        }
        at = at + 1;
    }
    occurs_at(s, &letters, at)
}

/// Whether a file of that lower-case name holds a licence.
pub fn is_licence_name(lower: &str) -> (r: bool)
    ensures
        r == names_licence(lower@),
{
    let s = chars_of(lower);
    occurs(&s, "license") || occurs(&s, "licence") || occurs(&s, "copying") || occurs(&s, "notice") || occurs(
        &s,
        "unlicense",
    ) || occurs(&s, "copyright")
}

/// A file with its text trimmed.
pub open spec fn cleaned(f: FileV) -> FileV {
    FileV { text: trimmed(f.text), ..f }
}

/// Whether a file holds a licence that says something.
pub open spec fn is_licence() -> spec_fn(FileV) -> bool {
    |f: FileV| names_licence(lowercase_of(f.name)) && f.text.len() > 0
}

pub open spec fn file_names(files: Seq<FileV>) -> Seq<Seq<char>> {
    files.map_values(|f: FileV| f.name)
}

/// Files by name, their texts trimmed.
pub open spec fn by_name(files: Seq<FileV>) -> Seq<FileV> {
    key_order(file_names(files)).map_values(|i: int| cleaned(files[i]))
}

/// The licences among the files of a package, by name.
pub open spec fn licences(files: Seq<FileV>) -> Seq<FileV> {
    keep(by_name(files), is_licence())
}

/// The licences among the files of a package, by name, their texts trimmed.
pub fn find_license_files(files: &Vec<LicenceFile>) -> (r: Vec<LicenceFile>)
    ensures
        views(r@) == licences(views(files@)),
{
    let ghost all = views(files@);
    let mut keys: Vec<Vec<char>> = Vec::new();
    let mut i: usize = 0;
    while i < files.len()
        invariant
            i <= files.len(),
            keys.len() == i,
            forall|k: int| 0 <= k < i ==> (#[trigger] keys[k])@ == files[k].name@,
        decreases files.len() - i,
    {
        keys.push(chars_of(files[i].name.as_str()));
        i = i + 1;
    }
    assert(keys_of(keys@) =~= file_names(all));
    let order = sorted_order(&keys);
    let ghost sorted = by_name(all);
    assert(sorted.len() == order.len());
    let mut out: Vec<LicenceFile> = Vec::new();
    let mut j: usize = 0;
    assert(views(out@) =~= keep(sorted.take(0), is_licence())) by {
        assert(sorted.take(0) =~= Seq::empty());
    }
    while j < order.len()
        invariant
            j <= order.len(),
            all == views(files@),
            sorted == by_name(all),
            ints(order@) == key_order(file_names(all)),
            sorted.len() == order.len(),
            forall|k: int| 0 <= k < order.len() ==> (#[trigger] order[k]) < files.len(),
            views(out@) == keep(sorted.take(j as int), is_licence()),
        decreases order.len() - j,
    {
        let f = &files[order[j]];
        let text = trim(f.text.as_str());
        let ghost fv = sorted[j as int];
        proof {
            assert(ints(order@)[j as int] == order[j as int]);
            assert(all[order[j as int] as int] == files[order[j as int] as int]@);
            assert(fv == cleaned(f@));
            lemma_keep_step(sorted, is_licence(), j as int);
        }
        let named: bool = is_licence_name(lowercase(f.name.as_str()).as_str());
        let ghost before = out@;
        if named && text.as_str().unicode_len() > 0 {
            let kept = LicenceFile { name: f.name.clone(), text };
            assert(kept@ == fv);
            out.push(kept);
            assert(views(out@) =~= views(before).push(fv));
        }
        j = j + 1;
    }
    assert(sorted.take(order.len() as int) =~= sorted);
    out
}

// ------------------------------------------------------------------ the licence texts --

pub open spec fn not_below(label: Seq<char>) -> spec_fn(Seq<char>) -> bool {
    |x: Seq<char>| lex_le(label, x)
}

/// Names in order, with one more among them.
pub open spec fn holding(holders: Seq<Seq<char>>, label: Seq<char>) -> Seq<Seq<char>> {
    match first_pos(holders, not_below(label)) {
        Some(k) => if holders[k] == label {
            holders
        } else {
            holders.insert(k, label)
        },
        None => holders.push(label),
    }
}

pub open spec fn has_text(text: Seq<char>) -> spec_fn(LicenceV) -> bool {
    |l: LicenceV| l.text == text
}

/// A licence text of `label` filed: under the same text where there is one already.
pub open spec fn filed(groups: Seq<LicenceV>, f: FileV, label: Seq<char>) -> Seq<LicenceV> {
    match first_pos(groups, has_text(f.text)) {
        Some(k) => groups.update(k, LicenceV { holders: holding(groups[k].holders, label), ..groups[k] }),
        None => groups.push(LicenceV { text: f.text, file: f.name, holders: seq![label] }),
    }
}

/// The first `n` of a package's licences filed.
pub open spec fn filed_all(groups: Seq<LicenceV>, files: Seq<FileV>, label: Seq<char>, n: int) -> Seq<LicenceV>
    decreases n,
{
    if n <= 0 {
        groups
    } else {
        filed(filed_all(groups, files, label, n - 1), files[n - 1], label)
    }
}

/// What a package is listed as.
pub open spec fn label_of(p: PackageV) -> Seq<char> {
    p.name + " "@ + p.version
}

/// The licence texts of the first `n` packages.
pub open spec fn of_packages(pkgs: Seq<PackageV>, n: int) -> Seq<LicenceV>
    decreases n,
{
    if n <= 0 {
        Seq::empty()
    } else {
        let own = licences(pkgs[n - 1].files);
        filed_all(of_packages(pkgs, n - 1), own, label_of(pkgs[n - 1]), own.len() as int)
    }
}

/// The licence text of a component, where it has one.
pub open spec fn own_text(c: ComponentV) -> Option<FileV> {
    match c.file {
        Some(f) => if trimmed(f.text).len() > 0 {
            Some(cleaned(f))
        } else {
            None
        },
        None => None,
    }
}

pub open spec fn of_components(groups: Seq<LicenceV>, comps: Seq<ComponentV>, n: int) -> Seq<LicenceV>
    decreases n,
{
    if n <= 0 {
        groups
    } else {
        let before = of_components(groups, comps, n - 1);
        match own_text(comps[n - 1]) {
            Some(f) => filed(before, f, comps[n - 1].label),
            None => before,
        }
    }
}

/// Every licence text, in the order they are first met.
pub open spec fn all_licences(pkgs: Seq<PackageV>, comps: Seq<ComponentV>) -> Seq<LicenceV> {
    of_components(of_packages(pkgs, pkgs.len() as int), comps, comps.len() as int)
}

/// Whether names are in order, each once.
pub open spec fn rising(s: Seq<Seq<char>>) -> bool {
    forall|i: int, j: int| 0 <= i < j < s.len() ==> lex_le(#[trigger] s[i], #[trigger] s[j]) && s[i] != s[j]
}

/// Whether each text stands once, with the names it applies to in order.
pub open spec fn tidy(groups: Seq<LicenceV>) -> bool {
    &&& forall|i: int, j: int| 0 <= i < j < groups.len() ==> (#[trigger] groups[i]).text != (#[trigger] groups[j]).text
    &&& forall|i: int| 0 <= i < groups.len() ==> rising((#[trigger] groups[i]).holders) && groups[i].holders.len() > 0
}

/// Whether a text stands in the list with `label` under it.
pub open spec fn lists(groups: Seq<LicenceV>, text: Seq<char>, label: Seq<char>) -> bool {
    exists|i: int| 0 <= i < groups.len() && (#[trigger] groups[i]).text == text && groups[i].holders.contains(label)
}

proof fn lemma_holding(holders: Seq<Seq<char>>, label: Seq<char>)
    requires
        rising(holders),
    ensures
        rising(holding(holders, label)),
        holding(holders, label).contains(label),
        forall|x: Seq<char>| holders.contains(x) ==> #[trigger] holding(holders, label).contains(x),
        holding(holders, label).len() > 0,
{
    let r = holding(holders, label);
    lemma_first_from(holders, not_below(label), 0);
    match first_pos(holders, not_below(label)) {
        Some(k) => {
            assert(not_below(label)(holders[k]));
            if holders[k] != label {
                assert(r[k] == label);
                assert forall|i: int, j: int| 0 <= i < j < r.len() implies lex_le(#[trigger] r[i], #[trigger] r[j])
                    && r[i] != r[j] by {
                    lemma_around(holders, label, k, i, j);
                }
                assert forall|x: Seq<char>| holders.contains(x) implies #[trigger] r.contains(x) by {
                    let i = choose|i: int| 0 <= i < holders.len() && holders[i] == x;
                    if i < k {
                        assert(r[i] == x);
                    } else {
                        assert(r[i + 1] == x);
                    }
                }
            } else {
                assert(holders.contains(label));
            }
        },
        None => {
            assert(r[holders.len() as int] == label);
            assert forall|i: int, j: int| 0 <= i < j < r.len() implies lex_le(#[trigger] r[i], #[trigger] r[j])
                && r[i] != r[j] by {
                if j == holders.len() {
                    assert(!not_below(label)(holders[i]));
                    lemma_lex_le_total(label, holders[i]);
                }
            }
            assert forall|x: Seq<char>| holders.contains(x) implies #[trigger] r.contains(x) by {
                let i = choose|i: int| 0 <= i < holders.len() && holders[i] == x;
                assert(r[i] == x);
            }
        },
    }
}

/// Two names of a list with `label` put in at `k` are in order.
proof fn lemma_around(holders: Seq<Seq<char>>, label: Seq<char>, k: int, i: int, j: int)
    requires
        rising(holders),
        0 <= k < holders.len(),
        lex_le(label, holders[k]),
        holders[k] != label,
        forall|m: int| 0 <= m < k ==> !not_below(label)(#[trigger] holders[m]),
        0 <= i < j <= holders.len(),
    ensures
        lex_le(holders.insert(k, label)[i], holders.insert(k, label)[j]),
        holders.insert(k, label)[i] != holders.insert(k, label)[j],
{
    let r = holders.insert(k, label);
    if j < k {
        assert(r[i] == holders[i] && r[j] == holders[j]);
    } else if j == k {
        assert(r[i] == holders[i] && r[j] == label);
        assert(!not_below(label)(holders[i]));
        lemma_lex_le_total(label, holders[i]);
    } else if i < k {
        assert(r[i] == holders[i] && r[j] == holders[j - 1]);
    } else if i == k {
        assert(r[i] == label && r[j] == holders[j - 1]);
        if j - 1 > k {
            lemma_lex_le_transitive(label, holders[k], holders[j - 1]);
            if label == holders[j - 1] {
                lemma_lex_le_antisymmetric(holders[k], holders[j - 1]);
            }
        }
    } else {
        assert(r[i] == holders[i - 1] && r[j] == holders[j - 1]);
    }
}

proof fn lemma_filed(groups: Seq<LicenceV>, f: FileV, label: Seq<char>)
    requires
        tidy(groups),
    ensures
        tidy(filed(groups, f, label)),
        lists(filed(groups, f, label), f.text, label),
        forall|t: Seq<char>, x: Seq<char>| lists(groups, t, x) ==> #[trigger] lists(filed(groups, f, label), t, x),
{
    let r = filed(groups, f, label);
    lemma_first_from(groups, has_text(f.text), 0);
    match first_pos(groups, has_text(f.text)) {
        Some(k) => {
            assert(has_text(f.text)(groups[k]));
            lemma_holding(groups[k].holders, label);
            assert(r[k].text == f.text);
            assert forall|t: Seq<char>, x: Seq<char>| lists(groups, t, x) implies #[trigger] lists(r, t, x) by {
                let i = choose|i: int|
                    0 <= i < groups.len() && (#[trigger] groups[i]).text == t && groups[i].holders.contains(x);
                assert(r[i].text == t && r[i].holders.contains(x));
            }
        },
        None => {
            assert(seq![label][0] == label);
            assert(r[groups.len() as int].text == f.text);
            assert(r[groups.len() as int].holders.contains(label));
            assert forall|i: int, j: int| 0 <= i < j < r.len() implies (#[trigger] r[i]).text != (
            #[trigger] r[j]).text by {
                if j == groups.len() {
                    assert(!has_text(f.text)(groups[i]));
                }
            }
            assert forall|t: Seq<char>, x: Seq<char>| lists(groups, t, x) implies #[trigger] lists(r, t, x) by {
                let i = choose|i: int|
                    0 <= i < groups.len() && (#[trigger] groups[i]).text == t && groups[i].holders.contains(x);
                assert(r[i].text == t && r[i].holders.contains(x));
            }
        },
    }
}

proof fn lemma_filed_all(groups: Seq<LicenceV>, files: Seq<FileV>, label: Seq<char>, n: int)
    requires
        tidy(groups),
        0 <= n <= files.len(),
    ensures
        tidy(filed_all(groups, files, label, n)),
        forall|j: int| 0 <= j < n ==> lists(filed_all(groups, files, label, n), (#[trigger] files[j]).text, label),
        forall|t: Seq<char>, x: Seq<char>|
            lists(groups, t, x) ==> #[trigger] lists(filed_all(groups, files, label, n), t, x),
    decreases n,
{
    if n > 0 {
        lemma_filed_all(groups, files, label, n - 1);
        lemma_filed(filed_all(groups, files, label, n - 1), files[n - 1], label);
    }
}

proof fn lemma_of_packages(pkgs: Seq<PackageV>, n: int)
    requires
        0 <= n <= pkgs.len(),
    ensures
        tidy(of_packages(pkgs, n)),
        forall|i: int, j: int|
            0 <= i < n && 0 <= j < licences(pkgs[i].files).len() ==> lists(
                of_packages(pkgs, n),
                (#[trigger] licences(pkgs[i].files)[j]).text,
                label_of(pkgs[i]),
            ),
    decreases n,
{
    if n > 0 {
        lemma_of_packages(pkgs, n - 1);
        let own = licences(pkgs[n - 1].files);
        lemma_filed_all(of_packages(pkgs, n - 1), own, label_of(pkgs[n - 1]), own.len() as int);
    }
}

proof fn lemma_of_components(groups: Seq<LicenceV>, comps: Seq<ComponentV>, n: int)
    requires
        tidy(groups),
        0 <= n <= comps.len(),
    ensures
        tidy(of_components(groups, comps, n)),
        forall|i: int|
            0 <= i < n && own_text(#[trigger] comps[i]) is Some ==> lists(
                of_components(groups, comps, n),
                own_text(comps[i])->0.text,
                comps[i].label,
            ),
        forall|t: Seq<char>, x: Seq<char>|
            lists(groups, t, x) ==> #[trigger] lists(of_components(groups, comps, n), t, x),
    decreases n,
{
    if n > 0 {
        lemma_of_components(groups, comps, n - 1);
        match own_text(comps[n - 1]) {
            Some(f) => {
                lemma_filed(of_components(groups, comps, n - 1), f, comps[n - 1].label);
            },
            None => {},
        }
    }
}

/// Each licence text is printed once, and under it everything it applies to, each name once and in
/// order.
pub proof fn law_each_text_once(pkgs: Seq<PackageV>, comps: Seq<ComponentV>)
    ensures
        tidy(all_licences(pkgs, comps)),
{
    lemma_of_packages(pkgs, pkgs.len() as int);
    lemma_of_components(of_packages(pkgs, pkgs.len() as int), comps, comps.len() as int);
}

/// No licence is left out: every text that a package or a component brings is printed, with its
/// name under it.
pub proof fn law_every_licence_is_printed(pkgs: Seq<PackageV>, comps: Seq<ComponentV>)
    ensures
        forall|i: int, j: int|
            0 <= i < pkgs.len() && 0 <= j < licences(pkgs[i].files).len() ==> lists(
                all_licences(pkgs, comps),
                (#[trigger] licences(pkgs[i].files)[j]).text,
                label_of(pkgs[i]),
            ),
        forall|i: int|
            0 <= i < comps.len() && own_text(#[trigger] comps[i]) is Some ==> lists(
                all_licences(pkgs, comps),
                own_text(comps[i])->0.text,
                comps[i].label,
            ),
{
    lemma_of_packages(pkgs, pkgs.len() as int);
    lemma_of_components(of_packages(pkgs, pkgs.len() as int), comps, comps.len() as int);
}

fn hold(holders: &mut Vec<String>, label: &str)
    ensures
        texts(final(holders)@) == holding(texts(old(holders)@), label@),
{
    let ghost all = texts(holders@);
    let wanted = chars_of(label);
    let mut k: usize = 0;
    let mut found: bool = false;
    while k < holders.len() && !found
        invariant
            k <= holders.len(),
            all == texts(holders@),
            wanted@ == label@,
            first_pos(all, not_below(label@)) == first_from(all, not_below(label@), k as int),
            found ==> k < holders.len() && not_below(label@)(all[k as int]),
        decreases holders.len() - k + if found {
            0int
        } else {
            1
        },
    {
        assert(all[k as int] == holders@[k as int]@);
        if chars_le(&wanted, &chars_of(holders[k].as_str())) {
            found = true;
        } else {
            k = k + 1;
        }
    }
    if k < holders.len() {
        assert(all[k as int] == holders@[k as int]@);
        if !same_text(holders[k].as_str(), label) {
            let ghost before = holders@;
            holders.insert(k, label.to_owned());
            assert(texts(holders@) =~= all.insert(k as int, label@));
        }
    } else {
        holders.push(label.to_owned());
        assert(texts(holders@) =~= all.push(label@));
    }
}

fn put_text(groups: &mut Vec<Licence>, text: &str, file: &str, label: &str)
    ensures
        views(final(groups)@) == filed(views(old(groups)@), (FileV { name: file@, text: text@ }), label@),
{
    let ghost all = views(groups@);
    let ghost p = has_text(text@);
    let mut k: usize = 0;
    while k < groups.len() && !same_text(groups[k].text.as_str(), text)
        invariant
            k <= groups.len(),
            all == views(groups@),
            p == has_text(text@),
            first_pos(all, p) == first_from(all, p, k as int),
        decreases groups.len() - k,
    {
        assert(all[k as int] == groups@[k as int]@);
        k = k + 1;
    }
    if k < groups.len() {
        assert(all[k as int] == groups@[k as int]@);
        let ghost before = groups@;
        hold(&mut groups[k].holders, label);
        assert(views(groups@) =~= all.update(
            k as int,
            LicenceV { holders: holding(all[k as int].holders, label@), ..all[k as int] },
        ));
    } else {
        let mut holders: Vec<String> = Vec::new();
        holders.push(label.to_owned());
        assert(texts(holders@) =~= seq![label@]);
        let l = Licence { text: text.to_owned(), file: file.to_owned(), holders };
        let ghost lv = l@;
        groups.push(l);
        assert(views(groups@) =~= all.push(lv));
    }
}

// ---------------------------------------------------------------------- the document --

/// The names the packages are sorted by.
pub open spec fn lower_names(pkgs: Seq<PackageV>) -> Seq<Seq<char>> {
    pkgs.map_values(|p: PackageV| lowercase_of(p.name))
}

pub open spec fn versions_of(pkgs: Seq<PackageV>) -> Seq<Seq<char>> {
    pkgs.map_values(|p: PackageV| p.version)
}

/// The positions of the packages, by name without regard to case and then by version.
pub open spec fn package_order(pkgs: Seq<PackageV>) -> Seq<int> {
    pair_order(lower_names(pkgs), versions_of(pkgs))
}

pub open spec fn third_party() -> spec_fn(PackageV) -> bool {
    |p: PackageV| !p.member
}

/// The third-party packages in the order they are listed.
pub open spec fn listed(all: Seq<PackageV>) -> Seq<PackageV> {
    let pkgs = keep(all, third_party());
    arranged(pkgs, package_order(pkgs))
}

/// Putting packages in order keeps each of them.
pub proof fn lemma_listed(all: Seq<PackageV>, p: PackageV)
    ensures
        listed(all).contains(p) <==> keep(all, third_party()).contains(p),
{
    let pkgs = keep(all, third_party());
    let order = package_order(pkgs);
    law_pair_order(lower_names(pkgs), versions_of(pkgs));
    assert(order.len() == pkgs.len());
    if listed(all).contains(p) {
        let k = choose|k: int| 0 <= k < listed(all).len() && listed(all)[k] == p;
        assert(order.contains(order[k]));
        assert(pkgs[order[k]] == p);
    }
    if pkgs.contains(p) {
        let y = choose|y: int| 0 <= y < pkgs.len() && pkgs[y] == p;
        assert(order.contains(y));
        let k = choose|k: int| 0 <= k < order.len() && order[k] == y;
        assert(listed(all)[k] == p);
    }
}

/// A rule across the document.
pub open spec fn rule(c: char) -> Seq<char> {
    Seq::new(RULE_LEN as nat, |i: int| c)
}

/// The licence a package declares.
pub open spec fn declared(p: PackageV) -> Seq<char> {
    match p.license {
        Some(l) => l,
        None => match p.license_file {
            Some(f) => "file: "@ + f,
            None => "UNKNOWN"@,
        },
    }
}

/// The licence of a package that brings no text.
pub open spec fn declared_only(p: PackageV) -> Seq<char> {
    match p.license {
        Some(l) => l,
        None => "UNKNOWN"@,
    }
}

/// A package's line.
pub open spec fn package_line(p: PackageV, licence: Seq<char>) -> Seq<char> {
    let line = "  "@ + label_of(p) + " — "@ + licence;
    if p.repository.len() == 0 {
        line
    } else {
        line + " — "@ + p.repository
    }
}

/// What the document opens with.
pub open spec fn preamble(count: nat) -> Seq<Seq<char>> {
    seq![
        "THIRD-PARTY SOFTWARE NOTICES"@,
        rule('='),
        Seq::empty(),
        "punktfunk-webos (https://github.com/punktfunk/client-webos) is licensed under"@,
        "MIT OR Apache-2.0, matching upstream punktfunk (https://git.unom.io/unom/punktfunk)."@,
        "The app links the third-party Rust crates listed below, and bundles or embeds the"@,
        "non-Rust components listed first. Each is distributed under its own permissive"@,
        "license; the full license texts follow the manifest."@,
        Seq::empty(),
        "Generated by build.rs — do not edit by hand."@,
        Seq::empty(),
        "Total third-party crates: "@ + decimal(count),
        Seq::empty(),
    ]
}

pub open spec fn component_lines(comps: Seq<ComponentV>, n: int) -> Seq<Seq<char>>
    decreases n,
{
    if n <= 0 {
        Seq::empty()
    } else {
        component_lines(comps, n - 1).push("  "@ + comps[n - 1].label).push("      "@ + comps[n - 1].blurb).push(
            "      "@ + comps[n - 1].url,
        )
    }
}

/// A section's title between two rules.
pub open spec fn titled(title: Seq<char>) -> Seq<Seq<char>> {
    seq![rule('-'), title, rule('-')]
}

/// The components, where there are any.
pub open spec fn bundled(comps: Seq<ComponentV>) -> Seq<Seq<char>> {
    if comps.len() == 0 {
        Seq::empty()
    } else {
        (titled("BUNDLED / EMBEDDED NON-RUST COMPONENTS"@) + component_lines(comps, comps.len() as int)).push(
            Seq::empty(),
        )
    }
}

pub open spec fn package_lines(pkgs: Seq<PackageV>, n: int) -> Seq<Seq<char>>
    decreases n,
{
    if n <= 0 {
        Seq::empty()
    } else {
        package_lines(pkgs, n - 1).push(package_line(pkgs[n - 1], declared(pkgs[n - 1])))
    }
}

/// Every package with its licence and its source.
pub open spec fn manifest(pkgs: Seq<PackageV>) -> Seq<Seq<char>> {
    (titled("MANIFEST (crate version — SPDX license — source)"@) + package_lines(pkgs, pkgs.len() as int)).push(
        Seq::empty(),
    )
}

/// The lines of the first `n` packages that bring no licence text.
pub open spec fn bare_lines(pkgs: Seq<PackageV>, n: int) -> Seq<Seq<char>>
    decreases n,
{
    if n <= 0 {
        Seq::empty()
    } else if licences(pkgs[n - 1].files).len() == 0 {
        bare_lines(pkgs, n - 1).push(package_line(pkgs[n - 1], declared_only(pkgs[n - 1])))
    } else {
        bare_lines(pkgs, n - 1)
    }
}

/// The packages that bring no licence text, where there are any.
pub open spec fn without_text(pkgs: Seq<PackageV>) -> Seq<Seq<char>> {
    let lines = bare_lines(pkgs, pkgs.len() as int);
    if lines.len() == 0 {
        Seq::empty()
    } else {
        (titled("Crates whose package did not embed a license file (SPDX + source only)"@) + lines).push(Seq::empty())
    }
}

/// Names with commas between them.
pub open spec fn listing(names: Seq<Seq<char>>, n: int) -> Seq<char>
    decreases n,
{
    if n <= 0 {
        Seq::empty()
    } else if n == 1 {
        names[0]
    } else {
        listing(names, n - 1) + ", "@ + names[n - 1]
    }
}

/// A licence text with what it applies to.
pub open spec fn licence_lines(l: LicenceV) -> Seq<Seq<char>> {
    seq![
        Seq::empty(),
        rule('-'),
        "The following license ("@ + l.file + ") applies to: "@ + listing(l.holders, l.holders.len() as int),
        rule('-'),
        l.text,
        Seq::empty(),
    ]
}

/// The first name under a licence, without regard to case.
pub open spec fn leader(l: LicenceV) -> Seq<char> {
    if l.holders.len() > 0 {
        lowercase_of(l.holders[0])
    } else {
        lowercase_of(Seq::empty())
    }
}

/// The positions of the licences: by the first name under each, and then by the text.
pub open spec fn licence_order(groups: Seq<LicenceV>) -> Seq<int> {
    pair_order(groups.map_values(|l: LicenceV| leader(l)), groups.map_values(|l: LicenceV| l.text))
}

pub open spec fn all_licence_lines(groups: Seq<LicenceV>, order: Seq<int>, n: int) -> Seq<Seq<char>>
    decreases n,
{
    if n <= 0 {
        Seq::empty()
    } else {
        all_licence_lines(groups, order, n - 1) + licence_lines(groups[order[n - 1]])
    }
}

pub open spec fn licence_section(groups: Seq<LicenceV>) -> Seq<Seq<char>> {
    seq![rule('='), "FULL LICENSE TEXTS (deduplicated)"@, rule('=')] + all_licence_lines(
        groups,
        licence_order(groups),
        groups.len() as int,
    )
}

/// The lines of the document.
pub open spec fn document(pkgs: Seq<PackageV>, comps: Seq<ComponentV>) -> Seq<Seq<char>> {
    preamble(pkgs.len()) + bundled(comps) + manifest(pkgs) + without_text(pkgs) + licence_section(
        all_licences(pkgs, comps),
    )
}

/// Lines, each ended.
pub open spec fn ended(lines: Seq<Seq<char>>, n: int) -> Seq<char>
    decreases n,
{
    if n <= 0 {
        Seq::empty()
    } else {
        ended(lines, n - 1) + lines[n - 1] + "\n"@
    }
}

/// The notices, and what they count.
pub struct Notices {
    pub text: String,
    pub crates: usize,
    pub texts: usize,
    pub without_text: usize,
}

/// Every package is accounted for: it has a line of its own in the manifest, and either brings a
/// licence text or stands among those that bring none.
pub proof fn law_every_package_is_listed(pkgs: Seq<PackageV>, i: int)
    requires
        0 <= i < pkgs.len(),
    ensures
        manifest(pkgs).contains(package_line(pkgs[i], declared(pkgs[i]))),
        licences(pkgs[i].files).len() == 0 ==> without_text(pkgs).contains(
            package_line(pkgs[i], declared_only(pkgs[i])),
        ),
{
    lemma_package_lines(pkgs, pkgs.len() as int);
    let m = manifest(pkgs);
    assert(m[3 + i] == package_line(pkgs[i], declared(pkgs[i])));
    if licences(pkgs[i].files).len() == 0 {
        lemma_bare_lines(pkgs, pkgs.len() as int, i);
        let lines = bare_lines(pkgs, pkgs.len() as int);
        let line = package_line(pkgs[i], declared_only(pkgs[i]));
        let k = choose|k: int| 0 <= k < lines.len() && lines[k] == line;
        assert(without_text(pkgs)[3 + k] == line);
    }
}

proof fn lemma_package_lines(pkgs: Seq<PackageV>, n: int)
    requires
        0 <= n <= pkgs.len(),
    ensures
        package_lines(pkgs, n).len() == n,
        forall|i: int|
            0 <= i < n ==> #[trigger] package_lines(pkgs, n)[i] == package_line(pkgs[i], declared(pkgs[i])),
    decreases n,
{
    if n > 0 {
        lemma_package_lines(pkgs, n - 1);
    }
}

proof fn lemma_bare_lines(pkgs: Seq<PackageV>, n: int, i: int)
    requires
        0 <= i < n <= pkgs.len(),
        licences(pkgs[i].files).len() == 0,
    ensures
        bare_lines(pkgs, n).contains(package_line(pkgs[i], declared_only(pkgs[i]))),
    decreases n,
{
    let line = package_line(pkgs[i], declared_only(pkgs[i]));
    if i == n - 1 {
        assert(bare_lines(pkgs, n).last() == line);
    } else {
        lemma_bare_lines(pkgs, n - 1, i);
        let before = bare_lines(pkgs, n - 1);
        let k = choose|k: int| 0 <= k < before.len() && before[k] == line;
        assert(bare_lines(pkgs, n)[k] == line);
    }
}

/// The packages are listed by name without regard to case and by version, each once, and none of
/// the app's own is among them.
pub proof fn law_packages_in_order(all: Seq<PackageV>)
    ensures
        listed(all).len() == keep(all, third_party()).len(),
        package_order(keep(all, third_party())).no_duplicates(),
        forall|i: int| 0 <= i < listed(all).len() ==> !(#[trigger] listed(all)[i]).member,
        forall|i: int, j: int|
            0 <= i < j < listed(all).len() ==> lex_le(
                lowercase_of((#[trigger] listed(all)[i]).name),
                lowercase_of((#[trigger] listed(all)[j]).name),
            ),
        forall|i: int, j: int|
            0 <= i < j < listed(all).len() && lowercase_of((#[trigger] listed(all)[i]).name) == lowercase_of(
                (#[trigger] listed(all)[j]).name,
            ) ==> lex_le(listed(all)[i].version, listed(all)[j].version),
{
    let pkgs = keep(all, third_party());
    let names = lower_names(pkgs);
    let versions = versions_of(pkgs);
    law_pair_order(names, versions);
    crate::seqs::lemma_keep(all, third_party());
    let o = package_order(pkgs);
    assert forall|i: int| 0 <= i < listed(all).len() implies !(#[trigger] listed(all)[i]).member by {
        assert(o.contains(o[i]));
        assert(third_party()(pkgs[o[i]]));
    }
    assert forall|i: int, j: int| 0 <= i < j < listed(all).len() implies lex_le(
        lowercase_of((#[trigger] listed(all)[i]).name),
        lowercase_of((#[trigger] listed(all)[j]).name),
    ) by {
        assert(o.contains(o[i]) && o.contains(o[j]));
        assert(crate::sorting::by_keys(names, versions)(o[i], o[j]));
        lemma_lex_le_total(names[o[i]], names[o[j]]);
        assert(names[o[i]] == lowercase_of(pkgs[o[i]].name));
        assert(names[o[j]] == lowercase_of(pkgs[o[j]].name));
    }
    assert forall|i: int, j: int|
        0 <= i < j < listed(all).len() && lowercase_of((#[trigger] listed(all)[i]).name) == lowercase_of(
            (#[trigger] listed(all)[j]).name,
        ) implies lex_le(listed(all)[i].version, listed(all)[j].version) by {
        assert(o.contains(o[i]) && o.contains(o[j]));
        assert(crate::sorting::by_keys(names, versions)(o[i], o[j]));
        assert(names[o[i]] == names[o[j]]);
    }
}

fn rule_text(c: char) -> (r: String)
    ensures
        r@ == rule(c),
{
    let mut out = String::new();
    let mut i: usize = 0;
    assert(out@ =~= Seq::empty());
    while i < RULE_LEN
        invariant
            i <= RULE_LEN,
            out@ == Seq::new(i as nat, |k: int| c),
        decreases RULE_LEN - i,
    {
        push_char(&mut out, c);
        i = i + 1;
        assert(out@ =~= Seq::new(i as nat, |k: int| c));
    }
    out
}

fn put(lines: &mut Vec<String>, line: &str)
    ensures
        texts(final(lines)@) == texts(old(lines)@).push(line@),
{
    let ghost before = lines@;
    lines.push(line.to_owned());
    assert(texts(lines@) =~= texts(before).push(line@));
}

fn put_blank(lines: &mut Vec<String>)
    ensures
        texts(final(lines)@) == texts(old(lines)@).push(Seq::empty()),
{
    let ghost before = lines@;
    let blank = String::new();
    assert(blank@ =~= Seq::empty());
    lines.push(blank);
    assert(texts(lines@) =~= texts(before).push(Seq::empty()));
}

fn put_titled(lines: &mut Vec<String>, title: &str)
    ensures
        texts(final(lines)@) == texts(old(lines)@) + titled(title@),
{
    let ghost before = texts(lines@);
    put(lines, rule_text('-').as_str());
    put(lines, title);
    put(lines, rule_text('-').as_str());
    assert(texts(lines@) =~= before + titled(title@));
}

fn label_text(p: &Package) -> (r: String)
    ensures
        r@ == label_of(p@),
{
    join3(p.name.as_str(), " ", p.version.as_str())
}

fn declared_text(p: &Package, only: bool) -> (r: String)
    ensures
        r@ == (if only {
            declared_only(p@)
        } else {
            declared(p@)
        }),
{
    match &p.license {
        Some(l) => l.clone(),
        None => match &p.license_file {
            Some(f) => if only {
                "UNKNOWN".to_owned()
            } else {
                join2("file: ", f.as_str())
            },
            None => "UNKNOWN".to_owned(),
        },
    }
}

fn line_text(p: &Package, licence: &str) -> (r: String)
    ensures
        r@ == package_line(p@, licence@),
{
    let label = label_text(p);
    let line = join3(join2("  ", label.as_str()).as_str(), " — ", licence);
    if p.repository.as_str().unicode_len() == 0 {
        line
    } else {
        join3(line.as_str(), " — ", p.repository.as_str())
    }
}

fn put_preamble(lines: &mut Vec<String>, count: usize)
    ensures
        texts(final(lines)@) == texts(old(lines)@) + preamble(count as nat),
{
    let ghost before = texts(lines@);
    put(lines, "THIRD-PARTY SOFTWARE NOTICES");
    put(lines, rule_text('=').as_str());
    put_blank(lines);
    put(lines, "punktfunk-webos (https://github.com/punktfunk/client-webos) is licensed under");
    put(lines, "MIT OR Apache-2.0, matching upstream punktfunk (https://git.unom.io/unom/punktfunk).");
    put(lines, "The app links the third-party Rust crates listed below, and bundles or embeds the");
    put(lines, "non-Rust components listed first. Each is distributed under its own permissive");
    put(lines, "license; the full license texts follow the manifest.");
    put_blank(lines);
    put(lines, "Generated by build.rs — do not edit by hand.");
    put_blank(lines);
    let total = decimal_text(count as u128);
    put(lines, join2("Total third-party crates: ", total.as_str()).as_str());
    put_blank(lines);
    assert(texts(lines@) =~= before + preamble(count as nat));
}

fn put_components(lines: &mut Vec<String>, comps: &Vec<Component>)
    ensures
        texts(final(lines)@) == texts(old(lines)@) + bundled(views(comps@)),
{
    let ghost before = texts(lines@);
    let ghost all = views(comps@);
    if comps.len() == 0 {
        assert(texts(lines@) =~= before + bundled(all));
        return;
    }
    put_titled(lines, "BUNDLED / EMBEDDED NON-RUST COMPONENTS");
    let ghost head = titled("BUNDLED / EMBEDDED NON-RUST COMPONENTS"@);
    let mut i: usize = 0;
    assert(texts(lines@) =~= before + head + component_lines(all, 0));
    while i < comps.len()
        invariant
            i <= comps.len(),
            all == views(comps@),
            texts(lines@) == before + head + component_lines(all, i as int),
        decreases comps.len() - i,
    {
        assert(all[i as int] == comps@[i as int]@);
        let c = &comps[i];
        put(lines, join2("  ", c.label.as_str()).as_str());
        put(lines, join2("      ", c.blurb.as_str()).as_str());
        put(lines, join2("      ", c.url.as_str()).as_str());
        i = i + 1;
        assert(texts(lines@) =~= before + head + component_lines(all, i as int));
    }
    put_blank(lines);
    assert(texts(lines@) =~= before + bundled(all));
}

fn put_manifest(lines: &mut Vec<String>, pkgs: &Vec<Package>)
    ensures
        texts(final(lines)@) == texts(old(lines)@) + manifest(views(pkgs@)),
{
    let ghost before = texts(lines@);
    let ghost all = views(pkgs@);
    put_titled(lines, "MANIFEST (crate version — SPDX license — source)");
    let ghost head = titled("MANIFEST (crate version — SPDX license — source)"@);
    let mut i: usize = 0;
    assert(texts(lines@) =~= before + head + package_lines(all, 0));
    while i < pkgs.len()
        invariant
            i <= pkgs.len(),
            all == views(pkgs@),
            texts(lines@) == before + head + package_lines(all, i as int),
        decreases pkgs.len() - i,
    {
        assert(all[i as int] == pkgs@[i as int]@);
        let licence = declared_text(&pkgs[i], false);
        put(lines, line_text(&pkgs[i], licence.as_str()).as_str());
        i = i + 1;
        assert(texts(lines@) =~= before + head + package_lines(all, i as int));
    }
    put_blank(lines);
    assert(texts(lines@) =~= before + manifest(all));
}

/// The lines of the packages that bring no licence text.
fn bare_texts(pkgs: &Vec<Package>, own: &Vec<Vec<LicenceFile>>) -> (r: Vec<String>)
    requires
        own.len() == pkgs.len(),
        forall|k: int| 0 <= k < own.len() ==> views((#[trigger] own[k])@) == licences(pkgs[k]@.files),
    ensures
        texts(r@) == bare_lines(views(pkgs@), pkgs.len() as int),
{
    let ghost all = views(pkgs@);
    let mut out: Vec<String> = Vec::new();
    let mut i: usize = 0;
    assert(texts(out@) =~= bare_lines(all, 0));
    while i < pkgs.len()
        invariant
            i <= pkgs.len(),
            own.len() == pkgs.len(),
            all == views(pkgs@),
            forall|k: int| 0 <= k < own.len() ==> views((#[trigger] own[k])@) == licences(pkgs[k]@.files),
            texts(out@) == bare_lines(all, i as int),
        decreases pkgs.len() - i,
    {
        proof {
            assert(all[i as int] == pkgs@[i as int]@);
            assert(views(own[i as int]@).len() == own[i as int].len());
        }
        if own[i].len() == 0 {
            let licence = declared_text(&pkgs[i], true);
            put(&mut out, line_text(&pkgs[i], licence.as_str()).as_str());
        }
        i = i + 1;
        assert(texts(out@) =~= bare_lines(all, i as int));
    }
    out
}

fn put_bare(lines: &mut Vec<String>, bare: &Vec<String>, Ghost(pkgs): Ghost<Seq<PackageV>>)
    requires
        texts(bare@) == bare_lines(pkgs, pkgs.len() as int),
    ensures
        texts(final(lines)@) == texts(old(lines)@) + without_text(pkgs),
{
    let ghost before = texts(lines@);
    assert(texts(bare@).len() == bare.len());
    if bare.len() == 0 {
        assert(texts(lines@) =~= before + without_text(pkgs));
        return;
    }
    put_titled(lines, "Crates whose package did not embed a license file (SPDX + source only)");
    let ghost head = titled("Crates whose package did not embed a license file (SPDX + source only)"@);
    let mut i: usize = 0;
    assert(texts(lines@) =~= before + head + texts(bare@).take(0));
    while i < bare.len()
        invariant
            i <= bare.len(),
            texts(lines@) == before + head + texts(bare@).take(i as int),
        decreases bare.len() - i,
    {
        assert(texts(bare@)[i as int] == bare@[i as int]@);
        put(lines, bare[i].as_str());
        i = i + 1;
        assert(texts(lines@) =~= before + head + texts(bare@).take(i as int));
    }
    put_blank(lines);
    assert(texts(lines@) =~= before + without_text(pkgs));
}

fn listing_text(names: &Vec<String>) -> (r: String)
    ensures
        r@ == listing(texts(names@), names.len() as int),
{
    let ghost all = texts(names@);
    let mut out = String::new();
    let mut i: usize = 0;
    assert(out@ =~= listing(all, 0));
    while i < names.len()
        invariant
            i <= names.len(),
            all == texts(names@),
            out@ == listing(all, i as int),
        decreases names.len() - i,
    {
        assert(all[i as int] == names@[i as int]@);
        if i == 0 {
            out = names[0].clone();
        } else {
            out = join3(out.as_str(), ", ", names[i].as_str());
        }
        i = i + 1;
        assert(out@ =~= listing(all, i as int));
    }
    out
}

fn put_licence(lines: &mut Vec<String>, l: &Licence)
    ensures
        texts(final(lines)@) == texts(old(lines)@) + licence_lines(l@),
{
    let ghost before = texts(lines@);
    put_blank(lines);
    put(lines, rule_text('-').as_str());
    let names = listing_text(&l.holders);
    let head = join3("The following license (", l.file.as_str(), ") applies to: ");
    put(lines, join2(head.as_str(), names.as_str()).as_str());
    put(lines, rule_text('-').as_str());
    put(lines, l.text.as_str());
    put_blank(lines);
    assert(texts(lines@) =~= before + licence_lines(l@));
}

/// The positions of the licences in the order they are printed.
fn order_licences(groups: &Vec<Licence>) -> (r: Vec<usize>)
    ensures
        ints(r@) == licence_order(views(groups@)),
        r.len() == groups.len(),
        forall|k: int| 0 <= k < r.len() ==> (#[trigger] r[k]) < groups.len(),
{
    let ghost all = views(groups@);
    let mut leaders: Vec<Vec<char>> = Vec::new();
    let mut bodies: Vec<Vec<char>> = Vec::new();
    let mut i: usize = 0;
    while i < groups.len()
        invariant
            i <= groups.len(),
            all == views(groups@),
            leaders.len() == i,
            bodies.len() == i,
            forall|k: int| 0 <= k < i ==> (#[trigger] leaders[k])@ == leader(all[k]),
            forall|k: int| 0 <= k < i ==> (#[trigger] bodies[k])@ == all[k].text,
        decreases groups.len() - i,
    {
        proof {
            assert(all[i as int] == groups@[i as int]@);
            assert(texts(groups[i as int].holders@).len() == groups[i as int].holders.len());
        }
        let first: String = if groups[i].holders.len() > 0 {
            lowercase(groups[i].holders[0].as_str())
        } else {
            let none = String::new();
            assert(none@ =~= Seq::empty());
            lowercase(none.as_str())
        };
        leaders.push(chars_of(first.as_str()));
        bodies.push(chars_of(groups[i].text.as_str()));
        i = i + 1;
    }
    assert(keys_of(leaders@) =~= all.map_values(|l: LicenceV| leader(l)));
    assert(keys_of(bodies@) =~= all.map_values(|l: LicenceV| l.text));
    let order = sorted_pairs(&leaders, &bodies);
    proof {
        law_pair_order(keys_of(leaders@), keys_of(bodies@));
        assert(ints(order@).len() == order.len());
    }
    order
}

fn put_licences(lines: &mut Vec<String>, groups: &Vec<Licence>)
    ensures
        texts(final(lines)@) == texts(old(lines)@) + licence_section(views(groups@)),
{
    let ghost before = texts(lines@);
    let ghost all = views(groups@);
    let ghost head = seq![rule('='), "FULL LICENSE TEXTS (deduplicated)"@, rule('=')];
    put(lines, rule_text('=').as_str());
    put(lines, "FULL LICENSE TEXTS (deduplicated)");
    put(lines, rule_text('=').as_str());
    let order = order_licences(groups);
    let ghost o = licence_order(all);
    let mut i: usize = 0;
    assert(texts(lines@) =~= before + head + all_licence_lines(all, o, 0));
    while i < order.len()
        invariant
            i <= order.len(),
            all == views(groups@),
            o == ints(order@),
            forall|k: int| 0 <= k < order.len() ==> (#[trigger] order[k]) < groups.len(),
            texts(lines@) == before + head + all_licence_lines(all, o, i as int),
        decreases order.len() - i,
    {
        proof {
            assert(o[i as int] == order[i as int]);
            assert(all[order[i as int] as int] == groups@[order[i as int] as int]@);
        }
        put_licence(lines, &groups[order[i]]);
        i = i + 1;
        assert(texts(lines@) =~= before + head + all_licence_lines(all, o, i as int));
    }
    assert(texts(lines@) =~= before + licence_section(all));
}

fn file_package(groups: &mut Vec<Licence>, own: &Vec<LicenceFile>, label: &str)
    ensures
        views(final(groups)@) == filed_all(views(old(groups)@), views(own@), label@, own.len() as int),
{
    let ghost before = views(groups@);
    let ghost files = views(own@);
    let mut i: usize = 0;
    while i < own.len()
        invariant
            i <= own.len(),
            files == views(own@),
            views(groups@) == filed_all(before, files, label@, i as int),
        decreases own.len() - i,
    {
        assert(files[i as int] == own@[i as int]@);
        put_text(groups, own[i].text.as_str(), own[i].name.as_str(), label);
        i = i + 1;
    }
}

/// The licence texts of the packages and components.
fn gather(pkgs: &Vec<Package>, own: &Vec<Vec<LicenceFile>>, comps: &Vec<Component>) -> (r: Vec<Licence>)
    requires
        own.len() == pkgs.len(),
        forall|k: int| 0 <= k < own.len() ==> views((#[trigger] own[k])@) == licences(pkgs[k]@.files),
    ensures
        views(r@) == all_licences(views(pkgs@), views(comps@)),
{
    let ghost all = views(pkgs@);
    let ghost parts = views(comps@);
    let mut groups: Vec<Licence> = Vec::new();
    let mut i: usize = 0;
    assert(views(groups@) =~= of_packages(all, 0));
    while i < pkgs.len()
        invariant
            i <= pkgs.len(),
            own.len() == pkgs.len(),
            all == views(pkgs@),
            forall|k: int| 0 <= k < own.len() ==> views((#[trigger] own[k])@) == licences(pkgs[k]@.files),
            views(groups@) == of_packages(all, i as int),
        decreases pkgs.len() - i,
    {
        proof {
            assert(all[i as int] == pkgs@[i as int]@);
            assert(views(own[i as int]@).len() == own[i as int].len());
        }
        let label = label_text(&pkgs[i]);
        file_package(&mut groups, &own[i], label.as_str());
        i = i + 1;
    }
    let mut j: usize = 0;
    while j < comps.len()
        invariant
            j <= comps.len(),
            parts == views(comps@),
            views(groups@) == of_components(of_packages(all, all.len() as int), parts, j as int),
        decreases comps.len() - j,
    {
        assert(parts[j as int] == comps@[j as int]@);
        match &comps[j].file {
            Some(f) => {
                let text = trim(f.text.as_str());
                if text.as_str().unicode_len() > 0 {
                    put_text(&mut groups, text.as_str(), f.name.as_str(), comps[j].label.as_str());
                }
            },
            None => {},
        }
        j = j + 1;
    }
    groups
}

fn own_licences(pkgs: &Vec<Package>) -> (r: Vec<Vec<LicenceFile>>)
    ensures
        r.len() == pkgs.len(),
        forall|k: int| 0 <= k < r.len() ==> views((#[trigger] r[k])@) == licences(pkgs[k]@.files),
{
    let mut out: Vec<Vec<LicenceFile>> = Vec::new();
    let mut i: usize = 0;
    while i < pkgs.len()
        invariant
            i <= pkgs.len(),
            out.len() == i,
            forall|k: int| 0 <= k < i ==> views((#[trigger] out[k])@) == licences(pkgs[k]@.files),
        decreases pkgs.len() - i,
    {
        out.push(find_license_files(&pkgs[i].files));
        i = i + 1;
    }
    out
}

/// The third-party packages in the order they are listed.
pub fn list_packages(packages: Vec<Package>) -> (r: Vec<Package>)
    ensures
        views(r@) == listed(views(packages@)),
{
    let ghost p = third_party();
    let mut packages = packages;
    let theirs = |x: &Package| -> (b: bool)
        ensures
            b == p(x@),
        { !x.member };
    retain_by(&mut packages, theirs, Ghost(p));
    let ghost pkgs = views(packages@);
    let mut names: Vec<Vec<char>> = Vec::new();
    let mut i: usize = 0;
    while i < packages.len()
        invariant
            i <= packages.len(),
            pkgs == views(packages@),
            names.len() == i,
            forall|k: int| 0 <= k < i ==> (#[trigger] names[k])@ == lowercase_of(pkgs[k].name),
        decreases packages.len() - i,
    {
        assert(pkgs[i as int] == packages@[i as int]@);
        let low = lowercase(packages[i].name.as_str());
        names.push(chars_of(low.as_str()));
        i = i + 1;
    }
    assert(keys_of(names@) =~= lower_names(pkgs));
    order_packages(packages, &names)
}

/// Packages in the order of the given names and then of their versions.
pub fn order_packages(packages: Vec<Package>, names: &Vec<Vec<char>>) -> (r: Vec<Package>)
    requires
        names.len() == packages.len(),
    ensures
        views(r@) == arranged(
            views(packages@),
            pair_order(keys_of(names@), versions_of(views(packages@))),
        ),
{
    let ghost pkgs = views(packages@);
    let mut versions: Vec<Vec<char>> = Vec::new();
    let mut i: usize = 0;
    while i < packages.len()
        invariant
            i <= packages.len(),
            pkgs == views(packages@),
            versions.len() == i,
            forall|k: int| 0 <= k < i ==> (#[trigger] versions[k])@ == pkgs[k].version,
        decreases packages.len() - i,
    {
        assert(pkgs[i as int] == packages@[i as int]@);
        versions.push(chars_of(packages[i].version.as_str()));
        i = i + 1;
    }
    assert(keys_of(versions@) =~= versions_of(pkgs));
    let order = sorted_pairs(names, &versions);
    arrange(packages, &order)
}

fn ended_text(lines: &Vec<String>) -> (r: String)
    ensures
        r@ == ended(texts(lines@), lines.len() as int),
{
    let ghost all = texts(lines@);
    let mut out = String::new();
    let mut i: usize = 0;
    assert(out@ =~= ended(all, 0));
    while i < lines.len()
        invariant
            i <= lines.len(),
            all == texts(lines@),
            out@ == ended(all, i as int),
        decreases lines.len() - i,
    {
        assert(all[i as int] == lines@[i as int]@);
        out = join3(out.as_str(), lines[i].as_str(), "\n");
        i = i + 1;
    }
    out
}

/// The notices of an app built from these packages and components; the packages are listed as they
/// come.
pub fn notices_of(pkgs: &Vec<Package>, comps: &Vec<Component>) -> (r: Notices)
    ensures
        r.text@ == ended(
            document(views(pkgs@), views(comps@)),
            document(views(pkgs@), views(comps@)).len() as int,
        ),
        r.crates == pkgs.len(),
        r.texts == all_licences(views(pkgs@), views(comps@)).len(),
        r.without_text == bare_lines(views(pkgs@), pkgs.len() as int).len(),
{
    let ghost all = views(pkgs@);
    let ghost parts = views(comps@);
    let own = own_licences(pkgs);
    let groups = gather(pkgs, &own, comps);
    let bare = bare_texts(pkgs, &own);
    let mut lines: Vec<String> = Vec::new();
    assert(texts(lines@) =~= Seq::empty());
    put_preamble(&mut lines, pkgs.len());
    put_components(&mut lines, comps);
    put_manifest(&mut lines, pkgs);
    put_bare(&mut lines, &bare, Ghost(all));
    put_licences(&mut lines, &groups);
    proof {
        assert(texts(lines@) =~= document(all, parts));
        assert(texts(lines@).len() == lines.len());
        assert(views(groups@).len() == groups.len());
        assert(texts(bare@).len() == bare.len());
    }
    Notices { text: ended_text(&lines), crates: pkgs.len(), texts: groups.len(), without_text: bare.len() }
}

/// The third-party notices of an app: its own packages are left out, and the rest are listed by
/// name and version.
pub fn third_party_notices(packages: Vec<Package>, comps: &Vec<Component>) -> (r: Notices)
    ensures
        r.text@ == ended(
            document(listed(views(packages@)), views(comps@)),
            document(listed(views(packages@)), views(comps@)).len() as int,
        ),
        r.crates == listed(views(packages@)).len(),
        r.texts == all_licences(listed(views(packages@)), views(comps@)).len(),
        r.without_text == bare_lines(listed(views(packages@)), listed(views(packages@)).len() as int).len(),
{
    let pkgs = list_packages(packages);
    assert(views(pkgs@).len() == pkgs.len());
    notices_of(&pkgs, comps)
}

// --------------------------------------------------------------- what the app bundles --

/// The platform the app is built for, whose dependencies the notices cover.
pub const TARGET: &'static str = "armv7-unknown-linux-gnueabi";

/// A component of the app that is no crate.
pub struct Bundled {
    pub label: &'static str,
    pub blurb: &'static str,
    /// Where its licence stands in the source tree.
    pub licence: Option<&'static str>,
    pub url: &'static str,
}

/// A [`Bundled`] as a value.
pub struct BundledV {
    pub label: Seq<char>,
    pub blurb: Seq<char>,
    pub licence: Option<Seq<char>>,
    pub url: Seq<char>,
}

impl View for Bundled {
    type V = BundledV;

    open spec fn view(&self) -> BundledV {
        BundledV {
            label: self.label@,
            blurb: self.blurb@,
            licence: match self.licence {
                Some(path) => Some(path@),
                None => None,
            },
            url: self.url@,
        }
    }
}

/// Everything the app bundles or embeds, in the order it is listed.
pub open spec fn all_bundled() -> Seq<BundledV> {
    seq![
        BundledV {
            label: "SDL2 (webosbrew/SDL-webOS backport)"@,
            blurb: "Bundled as lib/libSDL2-2.0.so.0 in the .ipk (the on-device system copy is too old — see docs/NOTES.md). Zlib license."@,
            licence: None,
            url: "https://github.com/webosbrew/SDL-webOS"@,
        },
        BundledV {
            label: "FreeType"@,
            blurb: "Bundled as lib/libfreetype.so.6 in the .ipk (Skia calls entry points the on-device copy lacks below webOS 9 — see taskfiles/toolchain.yml). FreeType License (BSD-style with credit clause)."@,
            licence: None,
            url: "https://freetype.org"@,
        },
        BundledV {
            label: "GNU libstdc++"@,
            blurb: "Bundled as lib/libstdc++.so.6 in the .ipk (the SDK builds against a newer GLIBCXX than the TV ships). GPL-3.0 with the GCC Runtime Library Exception."@,
            licence: None,
            url: "https://gcc.gnu.org/onlinedocs/libstdc++/"@,
        },
        BundledV {
            label: "Geist (Geist Sans)"@,
            blurb: "punktfunk's brand typeface, embedded into the binary by the console kit (pf-console-ui). SIL Open Font License 1.1."@,
            licence: Some("assets/fonts/Geist-OFL.txt"@),
            url: "https://github.com/vercel/geist-font"@,
        },
        BundledV {
            label: "Lucide icons"@,
            blurb: "Icon path data embedded by the console kit (pf-console-ui). ISC License."@,
            licence: Some("assets/icons/LICENSE-lucide.txt"@),
            url: "https://lucide.dev"@,
        },
        BundledV {
            label: "Font Awesome brand card icons"@,
            blurb: "Launcher and OS marks as vector tables in the console kit. Creative Commons Attribution 4.0."@,
            licence: Some("assets/cards/LICENSES/font-awesome-brands.txt"@),
            url: "https://fontawesome.com"@,
        },
        BundledV {
            label: "Simple Icons card icons"@,
            blurb: "Launcher and OS marks as vector tables in the console kit. CC0 1.0 Universal."@,
            licence: Some("assets/cards/LICENSES/simple-icons.txt"@),
            url: "https://simpleicons.org"@,
        },
        BundledV {
            label: "Bazzite card icon"@,
            blurb: "Bazzite mark as a vector table in the console kit. Apache License 2.0."@,
            licence: Some("assets/cards/LICENSES/bazzite.txt"@),
            url: "https://github.com/ublue-os/bazzite"@,
        },
        BundledV {
            label: "Playnite card icon"@,
            blurb: "Playnite mark as a vector table in the console kit. MIT License."@,
            licence: Some("assets/cards/LICENSES/playnite.txt"@),
            url: "https://github.com/JosefNemec/Playnite"@,
        },
        BundledV {
            label: "NDL DirectMedia"@,
            blurb: "LG webOS system library, `dlopen`'d at runtime from the device — NOT redistributed by this package. Header signatures were taken from mariotaku/ss4s."@,
            licence: None,
            url: "https://github.com/mariotaku/ss4s"@,
        },
    ]
}

/// Everything the app bundles or embeds, in the order it is listed.
pub fn bundled_components() -> (r: Vec<Bundled>)
    ensures
        views(r@) == all_bundled(),
{
    let r = vec![
        Bundled {
            label: "SDL2 (webosbrew/SDL-webOS backport)",
            blurb: "Bundled as lib/libSDL2-2.0.so.0 in the .ipk (the on-device system copy is too old — see docs/NOTES.md). Zlib license.",
            licence: None,
            url: "https://github.com/webosbrew/SDL-webOS",
        },
        Bundled {
            label: "FreeType",
            blurb: "Bundled as lib/libfreetype.so.6 in the .ipk (Skia calls entry points the on-device copy lacks below webOS 9 — see taskfiles/toolchain.yml). FreeType License (BSD-style with credit clause).",
            licence: None,
            url: "https://freetype.org",
        },
        Bundled {
            label: "GNU libstdc++",
            blurb: "Bundled as lib/libstdc++.so.6 in the .ipk (the SDK builds against a newer GLIBCXX than the TV ships). GPL-3.0 with the GCC Runtime Library Exception.",
            licence: None,
            url: "https://gcc.gnu.org/onlinedocs/libstdc++/",
        },
        Bundled {
            label: "Geist (Geist Sans)",
            blurb: "punktfunk's brand typeface, embedded into the binary by the console kit (pf-console-ui). SIL Open Font License 1.1.",
            licence: Some("assets/fonts/Geist-OFL.txt"),
            url: "https://github.com/vercel/geist-font",
        },
        Bundled {
            label: "Lucide icons",
            blurb: "Icon path data embedded by the console kit (pf-console-ui). ISC License.",
            licence: Some("assets/icons/LICENSE-lucide.txt"),
            url: "https://lucide.dev",
        },
        Bundled {
            label: "Font Awesome brand card icons",
            blurb: "Launcher and OS marks as vector tables in the console kit. Creative Commons Attribution 4.0.",
            licence: Some("assets/cards/LICENSES/font-awesome-brands.txt"),
            url: "https://fontawesome.com",
        },
        Bundled {
            label: "Simple Icons card icons",
            blurb: "Launcher and OS marks as vector tables in the console kit. CC0 1.0 Universal.",
            licence: Some("assets/cards/LICENSES/simple-icons.txt"),
            url: "https://simpleicons.org",
        },
        Bundled {
            label: "Bazzite card icon",
            blurb: "Bazzite mark as a vector table in the console kit. Apache License 2.0.",
            licence: Some("assets/cards/LICENSES/bazzite.txt"),
            url: "https://github.com/ublue-os/bazzite",
        },
        Bundled {
            label: "Playnite card icon",
            blurb: "Playnite mark as a vector table in the console kit. MIT License.",
            licence: Some("assets/cards/LICENSES/playnite.txt"),
            url: "https://github.com/JosefNemec/Playnite",
        },
        Bundled {
            label: "NDL DirectMedia",
            blurb: "LG webOS system library, `dlopen`'d at runtime from the device — NOT redistributed by this package. Header signatures were taken from mariotaku/ss4s.",
            licence: None,
            url: "https://github.com/mariotaku/ss4s",
        },
    ];
    assert(views(r@) =~= all_bundled());
    r
}

/// What follows the last slash of a path.
pub open spec fn file_name(path: Seq<char>) -> Seq<char>
    decreases path.len(),
{
    if path.contains('/') {
        file_name(path.drop_first())
    } else {
        path
    }
}

proof fn lemma_file_name(path: Seq<char>, k: int)
    requires
        0 <= k <= path.len(),
        k > 0 ==> path[k - 1] == '/',
        forall|i: int| k <= i < path.len() ==> path[i] != '/',
    ensures
        file_name(path) == path.subrange(k, path.len() as int),
    decreases path.len(),
{
    if k == 0 {
        assert(path.subrange(0, path.len() as int) =~= path);
    } else {
        let rest = path.drop_first();
        assert(path.contains('/'));
        assert(k > 1 ==> rest[k - 2] == path[k - 1]);
        lemma_file_name(rest, k - 1);
        assert(rest.subrange(k - 1, rest.len() as int) =~= path.subrange(k, path.len() as int));
    }
}

fn file_name_of(path: &str) -> (r: String)
    ensures
        r@ == file_name(path@),
{
    let n: usize = path.unicode_len();
    let mut k: usize = n;
    while k > 0 && path.get_char(k - 1) != '/'
        invariant
            n == path@.len(),
            k <= n,
            forall|i: int| k <= i < n ==> path@[i] != '/',
        decreases k,
    {
        k = k - 1;
    }
    proof {
        lemma_file_name(path@, k as int);
    }
    path.substring_char(k, n).to_owned()
}

/// The licence file of a component, where it has one and its text could be read.
pub open spec fn licence_of(b: BundledV, text: Option<Seq<char>>) -> Option<FileV> {
    match (b.licence, text) {
        (Some(path), Some(t)) => Some(FileV { name: file_name(path), text: t }),
        _ => None,
    }
}

impl Bundled {
    /// The component as the notices list it, `text` the text of its licence where that was read.
    pub fn component(&self, text: Option<String>) -> (r: Component)
        ensures
            r@ == (ComponentV {
                label: self@.label,
                blurb: self@.blurb,
                url: self@.url,
                file: licence_of(self@, text_of(text)),
            }),
    {
        let file = match (self.licence, text) {
            (Some(path), Some(t)) => Some(LicenceFile { name: file_name_of(path), text: t }),
            _ => None,
        };
        Component { label: self.label.to_owned(), blurb: self.blurb.to_owned(), url: self.url.to_owned(), file }
    }
}

} // verus!
