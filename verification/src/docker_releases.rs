//! The releases of the Docker daemon: reading the index of the download
//! site and choosing the release to install.
//!
//! The index is an HTML page with one link for each file. The files of
//! interest are called `docker-<major>.<minor>.<patch>.tgz`. The page is
//! fetched by the program around this library and handed over as text.

use crate::arch::Arch;
use crate::text::{
    all_digits, chars_of, decimal_value, has_prefix, has_suffix, is_canonical_decimal, is_digit,
    matches_at, pieces, split, split_on, string_of,
};
use vstd::prelude::*;
use vstd::string::*;

verus! {

/// The version of a release.
#[derive(Clone, Copy, Debug, PartialEq, Eq, Structural)]
pub struct Version {
    pub major: u64,
    pub minor: u64,
    pub patch: u64,
}

/// A release: its version and the address of its file.
pub struct Release {
    pub version: Version,
    pub url: String,
}

/// A release as the contracts speak of it.
pub struct Entry {
    pub version: Version,
    pub url: Seq<char>,
}

/// The releases of an index, each version once, in ascending order.
pub struct Releases {
    list: Vec<Release>,
}

/// Why no release was chosen.
#[derive(Clone, Copy, Debug, PartialEq, Eq, Structural)]
pub enum SelectError {
    /// The selector is not a version requirement.
    InvalidSelector,
    /// No release satisfies the selector.
    NoMatch,
}

/// What `Html::select` of `scraper` finds in the document that
/// `Html::parse_document` makes of `html`: for each element that matches
/// `selector`, in the order in which the document stores its nodes, the
/// value of its attribute `attribute`, if it has one. There is no result
/// where `Selector::parse` refuses the selector.
pub uninterp spec fn html_selected(
    html: Seq<char>,
    selector: Seq<char>,
    attribute: Seq<char>,
) -> Option<Seq<Option<Seq<char>>>>;

/// Whether `VersionReq::parse` of `semver` accepts `selector`.
pub uninterp spec fn semver_selector_valid(selector: Seq<char>) -> bool;

/// Whether the requirement that `VersionReq::parse` of `semver` reads from
/// `selector` is matched, by `VersionReq::matches`, by the version
/// `major.minor.patch` without pre-release and build parts.
pub uninterp spec fn semver_admits(selector: Seq<char>, major: u64, minor: u64, patch: u64) -> bool;

/// The views of the attribute values that a selection gave.
pub open spec fn href_views(found: Seq<Option<String>>) -> Seq<Option<Seq<char>>> {
    Seq::new(
        found.len(),
        |i: int|
            match found[i] {
                Some(value) => Some(value@),
                None => None,
            },
    )
}

/// `Selector::parse`, `Html::parse_document`, `Html::select` and
/// `ElementRef::attr` of `scraper`: the values of `attribute` on the elements
/// of `html` that match `selector`.
#[verifier::external_body]
fn select_attribute(html: &str, selector: &str, attribute: &str) -> (found: Option<
    Vec<Option<String>>,
>)
    ensures
        match found {
            Some(values) => html_selected(html@, selector@, attribute@) == Some(
                href_views(values@),
            ),
            None => html_selected(html@, selector@, attribute@) is None,
        },
{
    let selector = scraper::Selector::parse(selector).ok()?;
    let document = scraper::Html::parse_document(html);
    Some(document.select(&selector).map(|e| e.attr(attribute).map(String::from)).collect())
}

/// Whether `text` is made of three groups of decimal digits with a dot
/// between them.
pub open spec fn is_dotted_triple(text: Seq<char>) -> bool {
    let parts = split(text, '.');
    parts.len() == 3 && (forall|i: int|
        0 <= i < 3 ==> (#[trigger] parts[i]).len() >= 1 && all_digits(parts[i]))
}

/// Whether `digits` is the decimal representation of a number that fits
/// into 64 bits.
pub open spec fn is_version_number(digits: Seq<char>) -> bool {
    is_canonical_decimal(digits) && decimal_value(digits) <= u64::MAX
}

/// The version that three groups of digits denote: each group without a
/// leading zero and within 64 bits. Other groups denote no version.
pub open spec fn triple_value(text: Seq<char>) -> Option<Version> {
    let parts = split(text, '.');
    if is_version_number(parts[0]) && is_version_number(parts[1]) && is_version_number(parts[2]) {
        Some(
            Version {
                major: decimal_value(parts[0]) as u64,
                minor: decimal_value(parts[1]) as u64,
                patch: decimal_value(parts[2]) as u64,
            },
        )
    } else {
        None
    }
}

/// `Version::parse` of `semver` on three groups of digits: it reads each
/// group as a number, and refuses a group with a leading zero and a number
/// beyond 64 bits.
#[verifier::external_body]
fn parse_version(text: &str) -> (version: Option<Version>)
    requires
        is_dotted_triple(text@),
    ensures
        version == triple_value(text@),
{
    semver::Version::parse(text).ok().map(
        |v| Version { major: v.major, minor: v.minor, patch: v.patch },
    )
}

/// `VersionReq::parse` of `semver`: whether `selector` is a version
/// requirement.
#[verifier::external_body]
fn selector_is_valid(selector: &str) -> (valid: bool)
    ensures
        valid == semver_selector_valid(selector@),
{
    semver::VersionReq::parse(selector).is_ok()
}

/// `VersionReq::matches` of `semver`, on the requirement read from
/// `selector` and the version `version`.
#[verifier::external_body]
fn selector_admits(selector: &str, version: Version) -> (admitted: bool)
    requires
        semver_selector_valid(selector@),
    ensures
        admitted == semver_admits(selector@, version.major, version.minor, version.patch),
{
    let version = semver::Version::new(version.major, version.minor, version.patch);
    semver::VersionReq::parse(selector).map(|r| r.matches(&version)).unwrap_or(false)
}

/// The address of the index of the releases for an architecture.
pub open spec fn index_url_text(arch: Arch) -> Seq<char> {
    "https://download.docker.com/linux/static/stable/"@ + arch.uname_m_text() + "/"@
}

/// The part of a file name that holds the version, where the name is that
/// of a release: `docker-`, three groups of digits with dots between them,
/// and `.tgz`.
pub open spec fn release_version_text(name: Seq<char>) -> Option<Seq<char>> {
    let prefix = "docker-"@;
    let suffix = ".tgz"@;
    if name.len() >= prefix.len() + suffix.len() && has_prefix(name, prefix) && has_suffix(
        name,
        suffix,
    ) && is_dotted_triple(name.subrange(prefix.len() as int, name.len() - suffix.len())) {
        Some(name.subrange(prefix.len() as int, name.len() - suffix.len()))
    } else {
        None
    }
}

/// The version of the release that a file name denotes, if it denotes one.
pub open spec fn release_version(name: Seq<char>) -> Option<Version> {
    match release_version_text(name) {
        Some(text) => triple_value(text),
        None => None,
    }
}

/// `Url::parse` and `Url::join` of `reqwest`, on the index of the releases
/// and the name of a release's file: the index ends with a slash and the
/// name is a plain path segment, so the name is put after the index.
#[verifier::external_body]
fn join_url(base: &str, name: &str) -> (url: Option<String>)
    requires
        exists|arch: Arch| base@ == index_url_text(arch),
        release_version_text(name@) is Some,
    ensures
        url is Some,
        url->0@ == base@ + name@,
{
    reqwest::Url::parse(base).ok()?.join(name).ok().map(String::from)
}

impl Version {
    /// Whether this version is lower than `other`.
    pub open spec fn before(self, other: Version) -> bool {
        self.major < other.major || (self.major == other.major && (self.minor < other.minor || (
        self.minor == other.minor && self.patch < other.patch)))
    }

    /// Decides whether this version is lower than `other`.
    pub fn precedes(&self, other: &Version) -> (r: bool)
        ensures
            r == self.before(*other),
    {
        self.major < other.major || (self.major == other.major && (self.minor < other.minor || (
        self.minor == other.minor && self.patch < other.patch)))
    }
}

impl Release {
    /// The release as the contracts speak of it.
    pub open spec fn view(&self) -> Entry {
        Entry { version: self.version, url: self.url@ }
    }
}

/// The views of a sequence of releases.
pub open spec fn entries(list: Seq<Release>) -> Seq<Entry> {
    Seq::new(list.len(), |i: int| list[i]@)
}

/// Whether the versions ascend strictly: no version occurs twice.
pub open spec fn ascending(list: Seq<Entry>) -> bool {
    forall|i: int, j: int|
        0 <= i < j < list.len() ==> (#[trigger] list[i]).version.before((#[trigger] list[j]).version)
}

/// Number of leading releases with a version lower than `version`.
pub open spec fn position(list: Seq<Entry>, version: Version) -> int
    decreases list.len(),
{
    if list.len() > 0 && list[0].version.before(version) {
        1 + position(list.drop_first(), version)
    } else {
        0
    }
}

/// The list with `entry` put in at its place: it takes the place of a
/// release of the same version, if there is one.
pub open spec fn inserted(list: Seq<Entry>, entry: Entry) -> Seq<Entry> {
    let at = position(list, entry.version);
    if at < list.len() && list[at].version == entry.version {
        list.update(at, entry)
    } else {
        list.insert(at, entry)
    }
}

/// The release that a link of the index denotes, if it denotes one: the
/// version that its file name holds, and the file's address below `base`.
pub open spec fn entry_of(base: Seq<char>, href: Option<Seq<char>>) -> Option<Entry> {
    match href {
        Some(name) => match release_version(name) {
            Some(version) => Some(Entry { version, url: base + name }),
            None => None,
        },
        None => None,
    }
}

/// The releases that the links of an index denote: each link is put into
/// the list in turn, so that of two links with one version the later stays.
pub open spec fn listed(base: Seq<char>, hrefs: Seq<Option<Seq<char>>>) -> Seq<Entry>
    decreases hrefs.len(),
{
    if hrefs.len() == 0 {
        Seq::empty()
    } else {
        let before = listed(base, hrefs.drop_last());
        match entry_of(base, hrefs.last()) {
            Some(entry) => inserted(before, entry),
            None => before,
        }
    }
}

/// The position of the last `true`, if there is one.
pub open spec fn last_true(flags: Seq<bool>) -> Option<int>
    decreases flags.len(),
{
    if flags.len() == 0 {
        None
    } else if flags.last() {
        Some(flags.len() - 1)
    } else {
        last_true(flags.drop_last())
    }
}

/// For each release, whether the selector admits its version.
pub open spec fn admitted(selector: Seq<char>, list: Seq<Entry>) -> Seq<bool> {
    Seq::new(
        list.len(),
        |i: int|
            semver_admits(
                selector,
                list[i].version.major,
                list[i].version.minor,
                list[i].version.patch,
            ),
    )
}

impl Releases {
    #[verifier::type_invariant]
    spec fn well_formed(self) -> bool {
        ascending(entries(self.list@))
    }

    /// The releases, in ascending order of their versions.
    pub closed spec fn view(&self) -> Seq<Entry> {
        entries(self.list@)
    }

    /// No releases.
    pub fn new() -> (releases: Releases)
        ensures
            releases@ == Seq::<Entry>::empty(),
            ascending(releases@),
    {
        let releases = Releases { list: Vec::new() };
        assert(entries(releases.list@) =~= Seq::<Entry>::empty());
        releases
    }

    /// Number of releases; their versions ascend strictly.
    pub fn len(&self) -> (n: usize)
        ensures
            n == self@.len(),
            ascending(self@),
    {
        proof {
            use_type_invariant(self);
        }
        self.list.len()
    }

    /// The release at position `i`, counted from the lowest version.
    pub fn get(&self, i: usize) -> (release: Option<&Release>)
        ensures
            i < self@.len() <==> release is Some,
            release is Some ==> release->0@ == self@[i as int],
    {
        if i < self.list.len() {
            Some(&self.list[i])
        } else {
            None
        }
    }

    /// Puts a release into the list, in the place of its version.
    pub fn insert(self, release: Release) -> (after: Releases)
        ensures
            after@ == inserted(self@, release@),
            ascending(after@),
    {
        proof {
            use_type_invariant(&self);
        }
        let mut items = self.list;
        let ghost list = entries(items@);
        let ghost entry = release@;
        let n = items.len();
        let mut i: usize = 0;
        assert(list.skip(0) =~= list);
        while i < n && items[i].version.precedes(&release.version)
            invariant
                i <= n == items.len(),
                list == entries(items@),
                entry == release@,
                position(list, entry.version) == i + position(list.skip(i as int), entry.version),
                forall|k: int| 0 <= k < i ==> (#[trigger] list[k]).version.before(entry.version),
            decreases n - i,
        {
            assert(list.skip(i as int).drop_first() =~= list.skip(i + 1));
            assert(list.skip(i as int)[0] == list[i as int]);
            i += 1;
        }
        proof {
            if i < n {
                assert(list.skip(i as int)[0] == list[i as int]);
            }
            assert(position(list, entry.version) == i);
        }
        if i < n && items[i].version == release.version {
            items.set(i, release);
            proof {
                let after = entries(items@);
                assert(after =~= list.update(i as int, entry));
                assert forall|a: int, b: int| 0 <= a < b < after.len() implies (
                #[trigger] after[a]).version.before((#[trigger] after[b]).version) by {
                    assert(list[a].version.before(list[b].version));
                }
            }
        } else {
            items.insert(i, release);
            proof {
                let after = entries(items@);
                assert(after =~= list.insert(i as int, entry));
                assert forall|a: int, b: int| 0 <= a < b < after.len() implies (
                #[trigger] after[a]).version.before((#[trigger] after[b]).version) by {
                    if b < i {
                        assert(list[a].version.before(list[b].version));
                    } else if b == i {
                        assert(list[a].version.before(entry.version));
                    } else if a < i {
                        assert(list[a].version.before(list[b - 1].version));
                    } else if a == i {
                        assert(!list[i as int].version.before(entry.version));
                        if b - 1 > i {
                            assert(list[i as int].version.before(list[b - 1].version));
                        }
                    } else {
                        assert(list[a - 1].version.before(list[b - 1].version));
                    }
                }
            }
        }
        Releases { list: items }
    }
}

/// Decides whether every character is a decimal digit.
fn is_all_digits(chars: &Vec<char>) -> (r: bool)
    ensures
        r == all_digits(chars@),
{
    let mut i: usize = 0;
    while i < chars.len()
        invariant
            i <= chars.len(),
            forall|k: int| 0 <= k < i ==> is_digit(#[trigger] chars@[k]),
        decreases chars.len() - i,
    {
        let u: u32 = chars[i] as u32;
        if u < 48 || u > 57 {
            assert(!is_digit(chars@[i as int]));
            return false;
        }
        i += 1;
    }
    true
}

/// Copies `chars[from..to]`.
fn copy_chars(chars: &Vec<char>, from: usize, to: usize) -> (out: Vec<char>)
    requires
        from <= to <= chars.len(),
    ensures
        out@ == chars@.subrange(from as int, to as int),
{
    let mut out: Vec<char> = Vec::new();
    let mut i: usize = from;
    while i < to
        invariant
            from <= i <= to <= chars.len(),
            out@ == chars@.subrange(from as int, i as int),
        decreases to - i,
    {
        out.push(chars[i]);
        assert(chars@.subrange(from as int, i + 1) =~= chars@.subrange(from as int, i as int).push(
            chars@[i as int],
        ));
        i += 1;
    }
    out
}

/// Writes the address of the index of the releases for an architecture.
pub fn index_url(arch: Arch) -> (url: String)
    ensures
        url@ == index_url_text(arch),
{
    let mut url = String::from_str("https://download.docker.com/linux/static/stable/");
    url.append(arch.as_uname_m());
    url.append("/");
    url
}

/// Finds the part of a file name that holds the version, where the name is
/// that of a release.
pub fn version_text(name: &str) -> (text: Option<String>)
    ensures
        match text {
            Some(t) => release_version_text(name@) == Some(t@),
            None => release_version_text(name@) is None,
        },
{
    let chars = chars_of(name);
    let prefix = chars_of("docker-");
    let suffix = chars_of(".tgz");
    let n = chars.len();
    if prefix.len() > n || suffix.len() > n - prefix.len() {
        return None;
    }
    let end = n - suffix.len();
    if !matches_at(&chars, 0, &prefix) || !matches_at(&chars, end, &suffix) {
        proof {
            assert(chars@.subrange(0, 0 + prefix@.len() as int) =~= chars@.take(
                prefix@.len() as int,
            ));
            assert(chars@.subrange(end as int, end + suffix@.len()) =~= chars@.skip(end as int));
        }
        return None;
    }
    proof {
        assert(chars@.subrange(0, 0 + prefix@.len() as int) =~= chars@.take(prefix@.len() as int));
        assert(chars@.subrange(end as int, end + suffix@.len()) =~= chars@.skip(end as int));
    }
    let middle = copy_chars(&chars, prefix.len(), end);
    let parts = split_on(&middle, '.');
    if parts.len() != 3 {
        return None;
    }
    proof {
        let all = pieces(parts@);
        assert(all[0] == parts@[0]@ && all[1] == parts@[1]@ && all[2] == parts@[2]@);
    }
    if parts[0].len() < 1 || parts[1].len() < 1 || parts[2].len() < 1 {
        return None;
    }
    if !is_all_digits(&parts[0]) || !is_all_digits(&parts[1]) || !is_all_digits(&parts[2]) {
        return None;
    }
    Some(string_of(&middle))
}

/// Reads the version of a release from the name of its file.
///
/// A name that is not that of a release gives no version, nor does one
/// whose numbers have a leading zero or do not fit into 64 bits.
pub fn parse_release_name(name: &str) -> (version: Option<Version>)
    ensures
        version == release_version(name@),
{
    match version_text(name) {
        Some(text) => parse_version(text.as_str()),
        None => None,
    }
}

/// Lists the releases that the links of an index denote.
///
/// `hrefs` holds the targets of the links in the order of the page. A link
/// without a target, or with one that does not name a release, is passed
/// over.
pub fn releases_from_hrefs(arch: Arch, hrefs: &Vec<Option<String>>) -> (releases: Releases)
    ensures
        releases@ == listed(index_url_text(arch), href_views(hrefs@)),
        ascending(releases@),
{
    let base = index_url(arch);
    let mut releases = Releases::new();
    let mut i: usize = 0;
    let ghost all = href_views(hrefs@);
    assert(all.take(0) =~= Seq::<Option<Seq<char>>>::empty());
    while i < hrefs.len()
        invariant
            i <= hrefs.len(),
            all == href_views(hrefs@),
            base@ == index_url_text(arch),
            releases@ == listed(base@, all.take(i as int)),
            ascending(releases@),
        decreases hrefs.len() - i,
    {
        proof {
            assert(all.take(i + 1).drop_last() =~= all.take(i as int));
            assert(all.take(i + 1).last() == all[i as int]);
        }
        match &hrefs[i] {
            Some(name) => {
                match parse_release_name(name.as_str()) {
                    Some(version) => {
                        match join_url(base.as_str(), name.as_str()) {
                            Some(url) => {
                                releases = releases.insert(Release { version, url });
                            },
                            None => {},
                        }
                    },
                    None => {},
                }
            },
            None => {},
        }
        i += 1;
    }
    assert(all.take(hrefs.len() as int) =~= all);
    releases
}

/// Reads the releases for an architecture from the text of its index page:
/// the targets of the page's links, as far as they name releases.
pub fn get_docker_releases(arch: Arch, html: &str) -> (releases: Releases)
    ensures
        releases@ == match html_selected(html@, "a[href]"@, "href"@) {
            Some(hrefs) => listed(index_url_text(arch), hrefs),
            None => Seq::<Entry>::empty(),
        },
        ascending(releases@),
{
    match select_attribute(html, "a[href]", "href") {
        Some(hrefs) => releases_from_hrefs(arch, &hrefs),
        None => Releases::new(),
    }
}

/// Finds the position of the last `true`.
pub fn greatest_admitted(flags: &Vec<bool>) -> (at: Option<usize>)
    ensures
        match at {
            Some(i) => last_true(flags@) == Some(i as int),
            None => last_true(flags@) is None,
        },
{
    let mut i: usize = flags.len();
    assert(flags@.take(i as int) =~= flags@);
    while i > 0
        invariant
            i <= flags.len(),
            last_true(flags@) == last_true(flags@.take(i as int)),
        decreases i,
    {
        assert(flags@.take(i as int).last() == flags@[i - 1]);
        assert(flags@.take(i as int).drop_last() =~= flags@.take(i - 1));
        if flags[i - 1] {
            return Some(i - 1);
        }
        i -= 1;
    }
    None
}

/// Chooses the release to install: the one with the greatest version among
/// those that satisfy the selector.
pub fn select_release(selector: &str, releases: &Releases) -> (chosen: Result<
    Release,
    SelectError,
>)
    ensures
        ascending(releases@),
        !semver_selector_valid(selector@) ==> chosen == Err::<Release, SelectError>(
            SelectError::InvalidSelector,
        ),
        semver_selector_valid(selector@) ==> match last_true(admitted(selector@, releases@)) {
            Some(at) => chosen is Ok && chosen->Ok_0@ == releases@[at],
            None => chosen == Err::<Release, SelectError>(SelectError::NoMatch),
        },
{
    let n = releases.len();
    if !selector_is_valid(selector) {
        return Err(SelectError::InvalidSelector);
    }
    let mut flags: Vec<bool> = Vec::new();
    let mut i: usize = 0;
    while i < n
        invariant
            i <= n == releases@.len(),
            semver_selector_valid(selector@),
            flags@ =~= admitted(selector@, releases@).take(i as int),
        decreases n - i,
    {
        match releases.get(i) {
            Some(release) => {
                flags.push(selector_admits(selector, release.version));
            },
            None => {
                flags.push(false);
            },
        }
        i += 1;
    }
    assert(admitted(selector@, releases@).take(n as int) =~= admitted(selector@, releases@));
    match greatest_admitted(&flags) {
        Some(at) => {
            proof {
                lemma_last_true(flags@);
            }
            match releases.get(at) {
                Some(release) => Ok(Release { version: release.version, url: release.url.clone() }),
                None => Err(SelectError::NoMatch),
            }
        },
        None => Err(SelectError::NoMatch),
    }
}

/// The last `true` is a `true`, and only `false` follows it; where there is
/// none, every flag is `false`.
pub proof fn lemma_last_true(flags: Seq<bool>)
    ensures
        match last_true(flags) {
            Some(at) => 0 <= at < flags.len() && flags[at] && forall|k: int|
                at < k < flags.len() ==> !flags[k],
            None => forall|k: int| 0 <= k < flags.len() ==> !flags[k],
        },
    decreases flags.len(),
{
    if flags.len() > 0 && !flags.last() {
        lemma_last_true(flags.drop_last());
        match last_true(flags) {
            Some(at) => {
                assert forall|k: int| at < k < flags.len() implies !flags[k] by {
                    if k < flags.len() - 1 {
                        assert(flags.drop_last()[k] == flags[k]);
                    }
                }
            },
            None => {
                assert forall|k: int| 0 <= k < flags.len() implies !flags[k] by {
                    if k < flags.len() - 1 {
                        assert(flags.drop_last()[k] == flags[k]);
                    }
                }
            },
        }
    }
}

/// The chosen release has the greatest version of all that the selector
/// admits: it is admitted itself, and every other admitted release of the
/// list has a lower version.
pub proof fn lemma_chosen_is_greatest(selector: Seq<char>, list: Seq<Entry>, other: int)
    requires
        ascending(list),
        last_true(admitted(selector, list)) is Some,
        0 <= other < list.len(),
        admitted(selector, list)[other],
    ensures
        ({
            let at = last_true(admitted(selector, list))->0;
            &&& 0 <= at < list.len()
            &&& admitted(selector, list)[at]
            &&& other == at || list[other].version.before(list[at].version)
        }),
{
    lemma_last_true(admitted(selector, list));
}

/// Putting a release into an ascending list keeps the list ascending, holds
/// the release, and keeps every release of another version.
pub proof fn lemma_inserted(list: Seq<Entry>, entry: Entry)
    requires
        ascending(list),
    ensures
        ascending(inserted(list, entry)),
        inserted(list, entry).contains(entry),
        forall|i: int|
            0 <= i < list.len() && (#[trigger] list[i]).version != entry.version ==> inserted(
                list,
                entry,
            ).contains(list[i]),
        forall|k: int|
            0 <= k < inserted(list, entry).len() ==> (#[trigger] inserted(list, entry)[k]) == entry
                || list.contains(inserted(list, entry)[k]),
{
    let at = position(list, entry.version);
    lemma_position(list, entry.version);
    let after = inserted(list, entry);
    assert forall|k: int| 0 <= k < after.len() implies (#[trigger] after[k]) == entry
        || list.contains(after[k]) by {
        if at < list.len() && list[at].version == entry.version {
            if k != at {
                assert(after[k] == list[k]);
            }
        } else if k < at {
            assert(after[k] == list[k]);
        } else if k > at {
            assert(after[k] == list[k - 1]);
        }
    }
    if at < list.len() && list[at].version == entry.version {
        assert(after[at] == entry);
        assert forall|a: int, b: int| 0 <= a < b < after.len() implies (
        #[trigger] after[a]).version.before((#[trigger] after[b]).version) by {
            assert(list[a].version.before(list[b].version));
        }
        assert forall|i: int|
            0 <= i < list.len() && (#[trigger] list[i]).version != entry.version implies after.contains(
            list[i],
        ) by {
            assert(after[i] == list[i]);
        }
    } else {
        assert(after[at] == entry);
        assert forall|a: int, b: int| 0 <= a < b < after.len() implies (
        #[trigger] after[a]).version.before((#[trigger] after[b]).version) by {
            if b < at {
                assert(list[a].version.before(list[b].version));
            } else if b == at {
                assert(list[a].version.before(entry.version));
            } else if a < at {
                assert(list[a].version.before(list[b - 1].version));
            } else if a == at {
                assert(!list[at].version.before(entry.version));
                if b - 1 > at {
                    assert(list[at].version.before(list[b - 1].version));
                }
            } else {
                assert(list[a - 1].version.before(list[b - 1].version));
            }
        }
        assert forall|i: int|
            0 <= i < list.len() && (#[trigger] list[i]).version != entry.version implies after.contains(
            list[i],
        ) by {
            if i < at {
                assert(after[i] == list[i]);
            } else {
                assert(after[i + 1] == list[i]);
            }
        }
    }
}

/// The releases that the links of an index denote are listed in strictly
/// ascending order of their versions, whatever the order of the links.
pub proof fn lemma_listed_is_ascending(base: Seq<char>, hrefs: Seq<Option<Seq<char>>>)
    ensures
        ascending(listed(base, hrefs)),
    decreases hrefs.len(),
{
    if hrefs.len() > 0 {
        lemma_listed_is_ascending(base, hrefs.drop_last());
        match entry_of(base, hrefs.last()) {
            Some(entry) => {
                lemma_inserted(listed(base, hrefs.drop_last()), entry);
            },
            None => {},
        }
    }
}

/// The list holds what the links denote and nothing else: every listed
/// release is denoted by a link, and the version of every release that a
/// link denotes is listed.
pub proof fn lemma_listed_is_what_links_denote(base: Seq<char>, hrefs: Seq<Option<Seq<char>>>)
    ensures
        forall|k: int|
            0 <= k < listed(base, hrefs).len() ==> exists|i: int|
                0 <= i < hrefs.len() && entry_of(base, hrefs[i]) == Some(
                    #[trigger] listed(base, hrefs)[k],
                ),
        forall|i: int|
            0 <= i < hrefs.len() && entry_of(base, #[trigger] hrefs[i]) is Some ==> exists|k: int|
                0 <= k < listed(base, hrefs).len() && listed(base, hrefs)[k].version == entry_of(
                    base,
                    hrefs[i],
                )->0.version,
    decreases hrefs.len(),
{
    if hrefs.len() > 0 {
        let head = hrefs.drop_last();
        let before = listed(base, head);
        let after = listed(base, hrefs);
        lemma_listed_is_what_links_denote(base, head);
        lemma_listed_is_ascending(base, head);
        let last = hrefs.len() - 1;
        match entry_of(base, hrefs.last()) {
            Some(entry) => {
                lemma_inserted(before, entry);
                assert forall|k: int| 0 <= k < after.len() implies exists|i: int|
                    0 <= i < hrefs.len() && entry_of(base, hrefs[i]) == Some(
                        #[trigger] after[k],
                    ) by {
                    if after[k] == entry {
                        assert(entry_of(base, hrefs[last]) == Some(after[k]));
                    } else {
                        let j = choose|j: int| 0 <= j < before.len() && before[j] == after[k];
                        let i = choose|i: int|
                            0 <= i < head.len() && entry_of(base, head[i]) == Some(before[j]);
                        assert(hrefs[i] == head[i]);
                    }
                }
                assert forall|i: int|
                    0 <= i < hrefs.len() && entry_of(
                        base,
                        #[trigger] hrefs[i],
                    ) is Some implies exists|k: int|
                    0 <= k < after.len() && after[k].version == entry_of(
                        base,
                        hrefs[i],
                    )->0.version by {
                    let wanted = entry_of(base, hrefs[i])->0.version;
                    if wanted == entry.version {
                        let k = choose|k: int| 0 <= k < after.len() && after[k] == entry;
                        assert(after[k].version == wanted);
                    } else {
                        assert(hrefs[i] == head[i]);
                        let j = choose|j: int| 0 <= j < before.len() && before[j].version == wanted;
                        assert(after.contains(before[j]));
                        let k = choose|k: int| 0 <= k < after.len() && after[k] == before[j];
                        assert(after[k].version == wanted);
                    }
                }
            },
            None => {
                assert forall|k: int| 0 <= k < after.len() implies exists|i: int|
                    0 <= i < hrefs.len() && entry_of(base, hrefs[i]) == Some(
                        #[trigger] after[k],
                    ) by {
                    let i = choose|i: int|
                        0 <= i < head.len() && entry_of(base, head[i]) == Some(before[k]);
                    assert(hrefs[i] == head[i]);
                }
                assert forall|i: int|
                    0 <= i < hrefs.len() && entry_of(
                        base,
                        #[trigger] hrefs[i],
                    ) is Some implies exists|k: int|
                    0 <= k < after.len() && after[k].version == entry_of(
                        base,
                        hrefs[i],
                    )->0.version by {
                    assert(i < last);
                    assert(hrefs[i] == head[i]);
                }
            },
        }
    }
}

/// The position of a version in a list: every release before it has a
/// lower version, and the release at it, if any, does not.
pub proof fn lemma_position(list: Seq<Entry>, version: Version)
    ensures
        0 <= position(list, version) <= list.len(),
        forall|k: int|
            0 <= k < position(list, version) ==> (#[trigger] list[k]).version.before(version),
        position(list, version) < list.len() ==> !list[position(list, version)].version.before(
            version,
        ),
    decreases list.len(),
{
    if list.len() > 0 && list[0].version.before(version) {
        let rest = list.drop_first();
        lemma_position(rest, version);
        assert forall|k: int| 0 <= k < position(list, version) implies (
        #[trigger] list[k]).version.before(version) by {
            if k > 0 {
                assert(rest[k - 1] == list[k]);
            }
        }
        if position(list, version) < list.len() {
            assert(rest[position(rest, version)] == list[position(list, version)]);
        }
    }
}

impl SelectError {
    /// The message of the error.
    pub fn message(&self, selector: &str) -> (message: String)
        ensures
            message@ == match *self {
                SelectError::InvalidSelector => "Invalid docker version requirement: "@,
                SelectError::NoMatch => "No docker version matches requirement: "@,
            } + selector@,
    {
        let mut message = match self {
            SelectError::InvalidSelector => String::from_str(
                "Invalid docker version requirement: ",
            ),
            SelectError::NoMatch => String::from_str("No docker version matches requirement: "),
        };
        message.append(selector);
        message
    }
}

} // verus!
