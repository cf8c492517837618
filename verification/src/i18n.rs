//! Supported languages, detection of a Mainland China locale, choice of the
//! default language, and the translation catalogue.
use vstd::prelude::*;
use vstd::string::*;
use crate::text::{
    chars_of, replace_all, replace_chars, string_from_chars, eq_ignore_ascii_case, range_eq, range_eq_ignore_ascii_case, split_pieces, split_scan, trim,
    trim_range,
};

verus! {

/// Supported languages in HexGo.
#[derive(Debug, Clone, Copy, PartialEq, Eq, Structural)]
pub enum Language {
    ZhCn,
    EnUs,
}

impl Language {
    pub open spec fn spec_toggle(self) -> Language {
        match self {
            Language::ZhCn => Language::EnUs,
            Language::EnUs => Language::ZhCn,
        }
    }

    /// The default language: English.
    pub fn default() -> (l: Language)
        ensures
            l == Language::EnUs,
    {
        Language::EnUs
    }

    /// Toggles between Chinese and English.
    pub fn toggle(self) -> (l: Language)
        ensures
            l == self.spec_toggle(),
            l != self,
    {
        match self {
            Language::ZhCn => Language::EnUs,
            Language::EnUs => Language::ZhCn,
        }
    }

    pub open spec fn spec_code(self) -> Seq<char> {
        match self {
            Language::ZhCn => "zh-CN"@,
            Language::EnUs => "en-US"@,
        }
    }

    /// Standard BCP 47 locale code.
    pub fn code(self) -> (c: &'static str)
        ensures
            c@ == self.spec_code(),
    {
        match self {
            Language::ZhCn => "zh-CN",
            Language::EnUs => "en-US",
        }
    }
}

/// Toggling the language twice gives it back.
pub proof fn lemma_toggle_involutive(l: Language)
    ensures
        l.spec_toggle().spec_toggle() == l,
        l.spec_toggle() != l,
{
}

/// Characters that end the language-and-region part of a locale: an
/// encoding (`.UTF-8`) or a modifier (`@pinyin`) follows them.
pub open spec fn base_terminators() -> Seq<char> {
    seq!['.', '@']
}

/// Characters that separate subtags (`zh_CN`, `zh-Hans-CN`).
pub open spec fn subtag_separators() -> Seq<char> {
    seq!['-', '_']
}

/// The language-and-region part of a locale: the trimmed text before the
/// first `.` or `@` of the trimmed locale.
pub open spec fn locale_base(s: Seq<char>) -> Seq<char> {
    trim(split_pieces(trim(s), base_terminators())[0])
}

/// The non-empty subtags of the locale's base.
pub open spec fn locale_subtags(s: Seq<char>) -> Seq<Seq<char>> {
    split_pieces(locale_base(s), subtag_separators()).filter(|t: Seq<char>| t.len() > 0)
}

/// A subtag naming Mainland China: ISO 3166-1 "CN" in any ASCII case, or UN M.49 "156".
pub open spec fn names_mainland_region(t: Seq<char>) -> bool {
    eq_ignore_ascii_case(t, seq!['c', 'n']) || t == seq!['1', '5', '6']
}

/// Whether a locale string represents Mainland China: a subtag after the
/// first names the region, or the whole base is that region, or the locale
/// is exactly Simplified Chinese (`zh-Hans`) with no region.
pub open spec fn spec_is_mainland_china_locale(s: Seq<char>) -> bool {
    let tags = locale_subtags(s);
    ||| exists|i: int| 1 <= i < tags.len() && #[trigger] names_mainland_region(tags[i])
    ||| tags.len() == 1 && names_mainland_region(tags[0])
    ||| tags.len() == 2 && eq_ignore_ascii_case(tags[0], seq!['z', 'h']) && eq_ignore_ascii_case(
        tags[1],
        seq!['h', 'a', 'n', 's'],
    )
}

pub open spec fn views(v: Seq<Vec<char>>) -> Seq<Seq<char>> {
    v.map_values(|x: Vec<char>| x@)
}

/// The first piece of a split ends at the first separator.
proof fn lemma_first_piece(s: Seq<char>, seps: Seq<char>, k: int)
    requires
        0 <= k <= s.len(),
        forall|j: int| 0 <= j < k ==> !seps.contains(#[trigger] s[j]),
        k == s.len() || seps.contains(s[k]),
    ensures
        k == s.len() ==> split_scan(s, seps).0.len() == 0 && split_scan(s, seps).1 == s,
        k < s.len() ==> split_scan(s, seps).0.len() >= 1 && split_scan(s, seps).0[0] == s.take(k),
        split_pieces(s, seps)[0] == s.take(k),
    decreases s.len(),
{
    if s.len() == 0 {
        assert(s.take(0) =~= s);
    } else {
        let t = s.drop_last();
        if k == s.len() {
            lemma_first_piece(t, seps, k - 1);
            assert(t.push(s.last()) =~= s);
            assert(s.take(k) =~= s);
        } else if k == s.len() - 1 {
            assert forall|j: int| 0 <= j < k implies !seps.contains(#[trigger] t[j]) by {
                assert(t[j] == s[j]);
            }
            lemma_first_piece(t, seps, k);
            assert(s.take(k) =~= t);
        } else {
            assert forall|j: int| 0 <= j < k implies !seps.contains(#[trigger] t[j]) by {
                assert(t[j] == s[j]);
            }
            assert(t[k] == s[k]);
            lemma_first_piece(t, seps, k);
            assert(t.take(k) =~= s.take(k));
        }
    }
}

fn is_base_terminator(c: char) -> (r: bool)
    ensures
        r == base_terminators().contains(c),
{
    let r = c == '.' || c == '@';
    if r {
        if c == '.' {
            assert(base_terminators()[0] == c);
        } else {
            assert(base_terminators()[1] == c);
        }
    } else {
        assert forall|i: int| 0 <= i < base_terminators().len() implies base_terminators()[i]
            != c by {}
    }
    r
}

fn is_subtag_separator(c: char) -> (r: bool)
    ensures
        r == subtag_separators().contains(c),
{
    let r = c == '-' || c == '_';
    if r {
        if c == '-' {
            assert(subtag_separators()[0] == c);
        } else {
            assert(subtag_separators()[1] == c);
        }
    } else {
        assert forall|i: int| 0 <= i < subtag_separators().len() implies subtag_separators()[i]
            != c by {}
    }
    r
}

fn is_list_separator(c: char) -> (r: bool)
    ensures
        r == seq![':'].contains(c),
{
    let r = c == ':';
    if r {
        assert(seq![':'][0] == c);
    } else {
        assert forall|i: int| 0 <= i < seq![':'].len() implies seq![':'][i] != c by {}
    }
    r
}

/// The end of the first piece of `a[lo..hi]` split at `.` and `@`.
fn base_end(a: &Vec<char>, lo: usize, hi: usize) -> (k: usize)
    requires
        lo <= hi <= a@.len(),
    ensures
        lo <= k <= hi,
        split_pieces(a@.subrange(lo as int, hi as int), base_terminators())[0] == a@.subrange(
            lo as int,
            k as int,
        ),
{
    let mut k = lo;
    while k < hi && !is_base_terminator(a[k])
        invariant
            lo <= k <= hi <= a@.len(),
            forall|j: int| lo <= j < k ==> !base_terminators().contains(#[trigger] a@[j]),
        decreases hi - k,
    {
        k = k + 1;
    }
    let ghost s = a@.subrange(lo as int, hi as int);
    proof {
        assert forall|j: int| 0 <= j < k - lo implies !base_terminators().contains(
            #[trigger] s[j],
        ) by {
            assert(s[j] == a@[lo + j]);
        }
        if k < hi {
            assert(s[k - lo] == a@[k as int]);
        }
        lemma_first_piece(s, base_terminators(), k - lo);
        assert(s.take(k - lo) =~= a@.subrange(lo as int, k as int));
    }
    k
}

/// The non-empty subtags of `a[lo..hi]`.
fn subtags_of(a: &Vec<char>, lo: usize, hi: usize) -> (toks: Vec<Vec<char>>)
    requires
        lo <= hi <= a@.len(),
    ensures
        views(toks@) == split_pieces(a@.subrange(lo as int, hi as int), subtag_separators()).filter(
            |t: Seq<char>| t.len() > 0,
        ),
{
    let ghost p = |t: Seq<char>| t.len() > 0;
    let mut toks: Vec<Vec<char>> = Vec::new();
    let mut cur: Vec<char> = Vec::new();
    let ghost mut done: Seq<Seq<char>> = Seq::empty();
    let mut i = lo;
    assert(a@.subrange(lo as int, lo as int) =~= Seq::<char>::empty());
    assert(views(toks@) =~= done.filter(p)) by {
        reveal(Seq::filter);
    }
    while i < hi
        invariant
            lo <= i <= hi <= a@.len(),
            split_scan(a@.subrange(lo as int, i as int), subtag_separators()) == (done, cur@),
            views(toks@) == done.filter(p),
            p == (|t: Seq<char>| t.len() > 0),
        decreases hi - i,
    {
        let c = a[i];
        assert(a@.subrange(lo as int, i + 1).drop_last() =~= a@.subrange(lo as int, i as int));
        assert(a@.subrange(lo as int, i + 1).last() == c);
        if is_subtag_separator(c) {
            proof {
                done.lemma_filter_push(cur@, p);
            }
            if cur.len() > 0 {
                let ghost before = toks@;
                toks.push(cur);
                assert(views(toks@) =~= views(before).push(toks@.last()@));
            }
            proof {
                done = done.push(cur@);
            }
            cur = Vec::new();
        } else {
            cur.push(c);
        }
        i = i + 1;
    }
    proof {
        done.lemma_filter_push(cur@, p);
    }
    if cur.len() > 0 {
        let ghost before = toks@;
        toks.push(cur);
        assert(views(toks@) =~= views(before).push(toks@.last()@));
    }
    toks
}

/// Whether a subtag names Mainland China.
fn is_mainland_region(t: &Vec<char>) -> (r: bool)
    ensures
        r == names_mainland_region(t@),
{
    let cn: Vec<char> = vec!['c', 'n'];
    let num: Vec<char> = vec!['1', '5', '6'];
    assert(t@.subrange(0, t@.len() as int) =~= t@);
    assert(cn@ =~= seq!['c', 'n']);
    assert(num@ =~= seq!['1', '5', '6']);
    range_eq_ignore_ascii_case(t, 0, t.len(), &cn) || range_eq(t, 0, t.len(), &num)
}

/// Whether the characters of a locale represent Mainland China.
pub fn is_mainland_china_chars(s: &Vec<char>) -> (r: bool)
    ensures
        r == spec_is_mainland_china_locale(s@),
{
    let (a, b) = trim_range(s, 0, s.len());
    assert(s@.subrange(0, s@.len() as int) =~= s@);
    let k = base_end(s, a, b);
    let (c, d) = trim_range(s, a, k);
    let toks = subtags_of(s, c, d);
    let ghost tags = locale_subtags(s@);
    assert(views(toks@) == tags);
    assert(toks@.len() == tags.len());
    assert forall|i: int| 0 <= i < toks@.len() implies #[trigger] toks@[i]@ == tags[i] by {
        assert(views(toks@)[i] == toks@[i]@);
    }
    let mut i: usize = 1;
    while i < toks.len()
        invariant
            1 <= i,
            tags == locale_subtags(s@),
            toks@.len() == tags.len(),
            forall|j: int| 0 <= j < toks@.len() ==> #[trigger] toks@[j]@ == tags[j],
            forall|j: int| 1 <= j < i && j < tags.len() ==> !#[trigger] names_mainland_region(
                tags[j],
            ),
        decreases toks@.len() - i,
    {
        if is_mainland_region(&toks[i]) {
            assert(names_mainland_region(tags[i as int]));
            return true;
        }
        i = i + 1;
    }
    if toks.len() == 1 && is_mainland_region(&toks[0]) {
        return true;
    }
    if toks.len() == 2 {
        let zh: Vec<char> = vec!['z', 'h'];
        let hans: Vec<char> = vec!['h', 'a', 'n', 's'];
        assert(zh@ =~= seq!['z', 'h']);
        assert(hans@ =~= seq!['h', 'a', 'n', 's']);
        assert(toks@[0]@.subrange(0, toks@[0]@.len() as int) =~= toks@[0]@);
        assert(toks@[1]@.subrange(0, toks@[1]@.len() as int) =~= toks@[1]@);
        if range_eq_ignore_ascii_case(&toks[0], 0, toks[0].len(), &zh)
            && range_eq_ignore_ascii_case(&toks[1], 0, toks[1].len(), &hans) {
            return true;
        }
    }
    false
}

/// Checks whether a locale string represents Mainland China.
///
/// Returns `true` if the locale includes the region code "CN" (or "156"), or
/// specifies Simplified Chinese script without a conflicting region; `false`
/// for other regions (`zh-TW`, `zh-HK`, `zh-SG`, `en-US`, ...) and for empty
/// or unparseable values.
pub fn is_mainland_china_locale(locale: &str) -> (r: bool)
    ensures
        r == spec_is_mainland_china_locale(locale@),
{
    let s = chars_of(locale);
    is_mainland_china_chars(&s)
}

pub open spec fn opt_view(v: Option<&str>) -> Option<Seq<char>> {
    match v {
        Some(s) => Some(s@),
        None => None,
    }
}

pub open spec fn opt_is_mainland(v: Option<Seq<char>>) -> bool {
    match v {
        Some(s) => spec_is_mainland_china_locale(s),
        None => false,
    }
}

/// A colon-separated list of locales (`LANGUAGE`) names Mainland China in one of its entries.
pub open spec fn list_names_mainland(v: Option<Seq<char>>) -> bool {
    match v {
        Some(s) => some_entry_is_mainland(split_pieces(s, seq![':'])),
        None => false,
    }
}

/// One of `entries` names Mainland China.
pub open spec fn some_entry_is_mainland(entries: Seq<Seq<char>>) -> bool {
    exists|i: int| 0 <= i < entries.len() && #[trigger] spec_is_mainland_china_locale(entries[i])
}

/// The default language from the system locale and the locale variables
/// `LC_ALL`, `LC_MESSAGES`, `LANG` and `LANGUAGE`: Chinese when any of them
/// names Mainland China, English otherwise.
pub open spec fn spec_resolve_language(
    system: Option<Seq<char>>,
    lc_all: Option<Seq<char>>,
    lc_messages: Option<Seq<char>>,
    lang: Option<Seq<char>>,
    language: Option<Seq<char>>,
) -> Language {
    if opt_is_mainland(system) || opt_is_mainland(lc_all) || opt_is_mainland(lc_messages)
        || opt_is_mainland(lang) || list_names_mainland(language) {
        Language::ZhCn
    } else {
        Language::EnUs
    }
}

/// Whether one of the colon-separated locales of `value` is Mainland China.
fn locale_list_is_mainland(value: &str) -> (r: bool)
    ensures
        r == list_names_mainland(Some(value@)),
{
    let s = chars_of(value);
    let ghost seps = seq![':'];
    let mut cur: Vec<char> = Vec::new();
    let ghost mut done: Seq<Seq<char>> = Seq::empty();
    let mut i: usize = 0;
    assert(s@.subrange(0, 0) =~= Seq::<char>::empty());
    while i < s.len()
        invariant
            i <= s@.len(),
            s@ == value@,
            seps == seq![':'],
            split_scan(s@.subrange(0, i as int), seps) == (done, cur@),
            forall|j: int| 0 <= j < done.len() ==> !#[trigger] spec_is_mainland_china_locale(
                done[j],
            ),
        decreases s@.len() - i,
    {
        let c = s[i];
        assert(s@.subrange(0, i + 1).drop_last() =~= s@.subrange(0, i as int));
        assert(s@.subrange(0, i + 1).last() == c);
        if is_list_separator(c) {
            if is_mainland_china_chars(&cur) {
                proof {
                    let pieces = split_pieces(s@, seps);
                    lemma_scan_extends(s@, seps, i + 1);
                    assert(done.push(cur@)[done.len() as int] == cur@);
                    assert(pieces[done.len() as int] == cur@);
                    assert(spec_is_mainland_china_locale(pieces[done.len() as int]));
                    assert(s@ == value@);
                    assert(0 <= done.len() < pieces.len());
                    assert(split_pieces(value@, seq![':']) == pieces);
                    assert(spec_is_mainland_china_locale(
                        split_pieces(value@, seq![':'])[done.len() as int],
                    ));
                    assert(list_names_mainland(Some(value@)));
                }
                return true;
            }
            proof {
                done = done.push(cur@);
            }
            cur = Vec::new();
        } else {
            cur.push(c);
        }
        i = i + 1;
    }
    assert(s@.subrange(0, s@.len() as int) =~= s@);
    let r = is_mainland_china_chars(&cur);
    proof {
        let pieces = split_pieces(s@, seps);
        assert(pieces == done.push(cur@));
        if !r {
            assert forall|j: int| 0 <= j < pieces.len() implies !#[trigger]
                spec_is_mainland_china_locale(pieces[j]) by {
                if j < done.len() {
                    assert(pieces[j] == done[j]);
                }
            }
            assert(!list_names_mainland(Some(value@)));
        } else {
            assert(spec_is_mainland_china_locale(pieces[done.len() as int]));
            assert(split_pieces(value@, seq![':']) == pieces);
            assert(spec_is_mainland_china_locale(
                split_pieces(value@, seq![':'])[done.len() as int],
            ));
            assert(list_names_mainland(Some(value@)));
        }
    }
    r
}

/// Pieces already closed in a prefix stay pieces of the whole text.
proof fn lemma_scan_extends(s: Seq<char>, seps: Seq<char>, n: int)
    requires
        0 <= n <= s.len(),
    ensures
        split_scan(s.subrange(0, n), seps).0.len() <= split_scan(s, seps).0.len(),
        forall|j: int|
            0 <= j < split_scan(s.subrange(0, n), seps).0.len() ==> #[trigger] split_scan(
                s,
                seps,
            ).0[j] == split_scan(s.subrange(0, n), seps).0[j],
        split_pieces(s, seps).len() == split_scan(s, seps).0.len() + 1,
        forall|j: int|
            0 <= j < split_scan(s.subrange(0, n), seps).0.len() ==> #[trigger] split_pieces(
                s,
                seps,
            )[j] == split_scan(s.subrange(0, n), seps).0[j],
    decreases s.len() - n,
{
    if n == s.len() {
        assert(s.subrange(0, n) =~= s);
    } else {
        lemma_scan_extends(s, seps, n + 1);
        assert(s.subrange(0, n + 1).drop_last() =~= s.subrange(0, n));
    }
}

/// The values a resolution of the default language read: each variable is
/// looked up only while no earlier source has named Mainland China (`LC_ALL`,
/// `LC_MESSAGES`, `LANG`, then `LANGUAGE`, after the system locale), and the
/// language `l` is the one these values give.
pub open spec fn resolved_by<'a, F: Fn(&str) -> Option<&'a str>>(
    lookup_env: F,
    system_locale: Option<&str>,
    a: Option<&'a str>,
    b: Option<&'a str>,
    c: Option<&'a str>,
    d: Option<&'a str>,
    l: Language,
) -> bool {
    let s0 = opt_is_mainland(opt_view(system_locale));
    let s1 = s0 || opt_is_mainland(opt_view(a));
    let s2 = s1 || opt_is_mainland(opt_view(b));
    let s3 = s2 || opt_is_mainland(opt_view(c));
    &&& !s0 ==> call_ensures(lookup_env, ("LC_ALL",), a)
    &&& !s1 ==> call_ensures(lookup_env, ("LC_MESSAGES",), b)
    &&& !s2 ==> call_ensures(lookup_env, ("LANG",), c)
    &&& !s3 ==> call_ensures(lookup_env, ("LANGUAGE",), d)
    &&& l == spec_resolve_language(
        opt_view(system_locale),
        opt_view(a),
        opt_view(b),
        opt_view(c),
        opt_view(d),
    )
}

/// Whether an optional locale names Mainland China.
fn opt_mainland(v: Option<&str>) -> (r: bool)
    ensures
        r == opt_is_mainland(opt_view(v)),
{
    match v {
        Some(s) => is_mainland_china_locale(s),
        None => false,
    }
}

/// Resolves the default language given an optional system locale and an
/// environment lookup: Chinese when the system locale, `LC_ALL`,
/// `LC_MESSAGES`, `LANG` or an entry of `LANGUAGE` names Mainland China,
/// English otherwise. The sources are consulted in that order, and the
/// environment is not looked up once one of them has decided.
pub fn resolve_default_language<'a, F: Fn(&str) -> Option<&'a str>>(
    system_locale: Option<&str>,
    lookup_env: F,
) -> (l: Language)
    requires
        forall|k: &str| #[trigger] call_requires(lookup_env, (k,)),
    ensures
        exists|a: Option<&'a str>, b: Option<&'a str>, c: Option<&'a str>, d: Option<&'a str>|
            #[trigger] resolved_by(lookup_env, system_locale, a, b, c, d, l),
{
    if opt_mainland(system_locale) {
        assert(resolved_by(lookup_env, system_locale, None, None, None, None, Language::ZhCn));
        return Language::ZhCn;
    }
    let a = lookup_env("LC_ALL");
    if opt_mainland(a) {
        assert(resolved_by(lookup_env, system_locale, a, None, None, None, Language::ZhCn));
        return Language::ZhCn;
    }
    let b = lookup_env("LC_MESSAGES");
    if opt_mainland(b) {
        assert(resolved_by(lookup_env, system_locale, a, b, None, None, Language::ZhCn));
        return Language::ZhCn;
    }
    let c = lookup_env("LANG");
    if opt_mainland(c) {
        assert(resolved_by(lookup_env, system_locale, a, b, c, None, Language::ZhCn));
        return Language::ZhCn;
    }
    let d = lookup_env("LANGUAGE");
    let l = resolve_language(system_locale, a, b, c, d);
    assert(resolved_by(lookup_env, system_locale, a, b, c, d, l));
    l
}

/// The default language from the system locale and the values of
/// `LC_ALL`, `LC_MESSAGES`, `LANG` and `LANGUAGE`, checked in that order.
pub fn resolve_language(
    system_locale: Option<&str>,
    lc_all: Option<&str>,
    lc_messages: Option<&str>,
    lang: Option<&str>,
    language: Option<&str>,
) -> (l: Language)
    ensures
        l == spec_resolve_language(
            opt_view(system_locale),
            opt_view(lc_all),
            opt_view(lc_messages),
            opt_view(lang),
            opt_view(language),
        ),
{
    if let Some(locale) = system_locale {
        if is_mainland_china_locale(locale) {
            return Language::ZhCn;
        }
    }
    if let Some(v) = lc_all {
        if is_mainland_china_locale(v) {
            return Language::ZhCn;
        }
    }
    if let Some(v) = lc_messages {
        if is_mainland_china_locale(v) {
            return Language::ZhCn;
        }
    }
    if let Some(v) = lang {
        if is_mainland_china_locale(v) {
            return Language::ZhCn;
        }
    }
    if let Some(v) = language {
        if locale_list_is_mainland(v) {
            return Language::ZhCn;
        }
    }
    Language::EnUs
}

/// The value of the first entry of `entries` whose key is `key`.
pub open spec fn lookup(entries: Seq<(Seq<char>, Seq<char>)>, key: Seq<char>) -> Option<Seq<char>>
    decreases entries.len(),
{
    if entries.len() == 0 {
        None
    } else if entries[0].0 == key {
        Some(entries[0].1)
    } else {
        lookup(entries.drop_first(), key)
    }
}

/// The translation of `key` in `entries`, or `key` itself when it has none.
pub open spec fn translate(entries: Seq<(Seq<char>, Seq<char>)>, key: Seq<char>) -> Seq<char> {
    match lookup(entries, key) {
        Some(v) => v,
        None => key,
    }
}

/// The placeholder `{name}`.
pub open spec fn placeholder(name: Seq<char>) -> Seq<char> {
    seq!['{'] + name + seq!['}']
}

/// `text` with the placeholder of each variable replaced by its value, the
/// variables taken in order.
pub open spec fn substitute(text: Seq<char>, vars: Seq<(Seq<char>, Seq<char>)>) -> Seq<char>
    decreases vars.len(),
{
    if vars.len() == 0 {
        text
    } else {
        replace_all(
            substitute(text, vars.drop_last()),
            placeholder(vars.last().0),
            vars.last().1,
        )
    }
}

pub open spec fn entry_views(v: Seq<(String, String)>) -> Seq<(Seq<char>, Seq<char>)> {
    v.map_values(|e: (String, String)| (e.0@, e.1@))
}

pub open spec fn var_views(v: Seq<(&str, &str)>) -> Seq<(Seq<char>, Seq<char>)> {
    v.map_values(|e: (&str, &str)| (e.0@, e.1@))
}

/// No two entries share a key.
pub open spec fn distinct_keys(entries: Seq<(Seq<char>, Seq<char>)>) -> bool {
    forall|i: int, j: int| 0 <= i < j < entries.len() ==> entries[i].0 != entries[j].0
}

/// In a list of entries with distinct keys, each key translates to its own text.
pub proof fn lemma_translate_distinct(entries: Seq<(Seq<char>, Seq<char>)>, i: int)
    requires
        distinct_keys(entries),
        0 <= i < entries.len(),
    ensures
        translate(entries, entries[i].0) == entries[i].1,
    decreases i,
{
    if i > 0 {
        let rest = entries.drop_first();
        assert(entries[0].0 != entries[i].0);
        assert(rest[i - 1] == entries[i]);
        assert(distinct_keys(rest)) by {
            assert forall|a: int, b: int| 0 <= a < b < rest.len() implies rest[a].0
                != rest[b].0 by {
                assert(rest[a] == entries[a + 1] && rest[b] == entries[b + 1]);
            }
        }
        lemma_translate_distinct(rest, i - 1);
    }
}

/// The entries that `serde_json::from_str` reads from a JSON object whose
/// values are strings, in ascending key order; `None` when `text` is not
/// such an object.
pub uninterp spec fn parsed_string_map(text: Seq<char>) -> Option<Seq<(Seq<char>, Seq<char>)>>;

#[verifier::external_type_specification]
#[verifier::external_body]
pub struct ExJsonError(serde_json::Error);

/// Reads a JSON object of strings (wraps `serde_json::from_str` into a
/// `BTreeMap<String, String>`, whose entries are then listed in key order).
/// Claimed: the entries are those that `parsed_string_map` names, an error
/// comes exactly when it names none, and no key occurs twice (a map holds
/// each key once; a repeated key keeps its last value).
#[verifier::external_body]
fn parse_string_map(text: &str) -> (r: Result<Vec<(String, String)>, serde_json::Error>)
    ensures
        match r {
            Ok(v) => parsed_string_map(text@) == Some(entry_views(v@)),
            Err(_) => parsed_string_map(text@) is None,
        },
        r matches Ok(v) ==> distinct_keys(entry_views(v@)),
{
    match serde_json::from_str::<std::collections::BTreeMap<String, String>>(text) {
        Ok(m) => Ok(m.into_iter().collect()),
        Err(e) => Err(e),
    }
}

/// A catalogue that could not be read.
#[derive(Debug, Clone, Copy, PartialEq, Eq, Structural)]
pub enum CatalogError {
    /// The catalogue of this language is not a JSON object of strings.
    Invalid(Language),
}

/// Translation catalogue for all supported languages: for each language a
/// list of (key, text) entries, no key occurring twice in a language.
#[derive(Debug)]
pub struct I18nStore {
    zh: Vec<(String, String)>,
    en: Vec<(String, String)>,
}

/// A copy of a list of entries.
fn clone_entries(v: &Vec<(String, String)>) -> (r: Vec<(String, String)>)
    ensures
        r@ == v@,
{
    let mut r: Vec<(String, String)> = Vec::new();
    let mut i: usize = 0;
    while i < v.len()
        invariant
            i <= v@.len(),
            r@ == v@.take(i as int),
        decreases v@.len() - i,
    {
        let key = v[i].0.clone();
        let text = v[i].1.clone();
        r.push((key, text));
        assert(v@.take(i + 1) =~= v@.take(i as int).push(v@[i as int]));
        i = i + 1;
    }
    assert(v@.take(v@.len() as int) =~= v@);
    r
}

impl Clone for I18nStore {
    /// A copy holding the same entries.
    fn clone(&self) -> (c: Self)
        ensures
            c.catalog(Language::ZhCn) == self.catalog(Language::ZhCn),
            c.catalog(Language::EnUs) == self.catalog(Language::EnUs),
    {
        proof {
            use_type_invariant(self);
        }
        I18nStore { zh: clone_entries(&self.zh), en: clone_entries(&self.en) }
    }
}

impl I18nStore {
    /// The entries of the catalogue of `lang`.
    pub closed spec fn catalog(&self, lang: Language) -> Seq<(Seq<char>, Seq<char>)> {
        match lang {
            Language::ZhCn => entry_views(self.zh@),
            Language::EnUs => entry_views(self.en@),
        }
    }

    /// Each language's catalogue holds each key at most once.
    #[verifier::type_invariant]
    spec fn keys_distinct(self) -> bool {
        &&& distinct_keys(entry_views(self.zh@))
        &&& distinct_keys(entry_views(self.en@))
    }

    /// A catalogue with the given Chinese and English entries, each list
    /// holding a key at most once.
    pub fn new(zh: Vec<(String, String)>, en: Vec<(String, String)>) -> (s: I18nStore)
        requires
            distinct_keys(entry_views(zh@)),
            distinct_keys(entry_views(en@)),
        ensures
            s.catalog(Language::ZhCn) == entry_views(zh@),
            s.catalog(Language::EnUs) == entry_views(en@),
    {
        I18nStore { zh, en }
    }

    /// The catalogue read from the JSON objects of the Chinese and English
    /// texts; the first that cannot be read is reported.
    pub fn from_json(zh_json: &str, en_json: &str) -> (r: Result<I18nStore, CatalogError>)
        ensures
            r is Ok <==> (parsed_string_map(zh_json@) is Some && parsed_string_map(en_json@) is Some),
            r matches Ok(s) ==> {
                &&& parsed_string_map(zh_json@) == Some(s.catalog(Language::ZhCn))
                &&& parsed_string_map(en_json@) == Some(s.catalog(Language::EnUs))
                &&& distinct_keys(s.catalog(Language::ZhCn))
                &&& distinct_keys(s.catalog(Language::EnUs))
            },
            r matches Err(e) ==> e == if parsed_string_map(zh_json@) is None {
                CatalogError::Invalid(Language::ZhCn)
            } else {
                CatalogError::Invalid(Language::EnUs)
            },
    {
        let zh = match parse_string_map(zh_json) {
            Ok(v) => v,
            Err(_) => {
                return Err(CatalogError::Invalid(Language::ZhCn));
            },
        };
        let en = match parse_string_map(en_json) {
            Ok(v) => v,
            Err(_) => {
                return Err(CatalogError::Invalid(Language::EnUs));
            },
        };
        Ok(I18nStore::new(zh, en))
    }

    /// Translates a key for the given language, falling back to the key if not found.
    pub fn t<'a>(&'a self, lang: Language, key: &'a str) -> (r: &'a str)
        ensures
            r@ == translate(self.catalog(lang), key@),
            distinct_keys(self.catalog(lang)),
    {
        proof {
            use_type_invariant(self);
        }
        let entries = match lang {
            Language::ZhCn => &self.zh,
            Language::EnUs => &self.en,
        };
        let ghost cat = entry_views(entries@);
        assert(cat == self.catalog(lang));
        let owned = key.to_owned();
        let mut i: usize = 0;
        assert(cat.skip(0) =~= cat);
        while i < entries.len()
            invariant
                i <= entries@.len(),
                cat == entry_views(entries@),
                cat == self.catalog(lang),
                distinct_keys(cat),
                owned@ == key@,
                lookup(cat, key@) == lookup(cat.skip(i as int), key@),
            decreases entries@.len() - i,
        {
            assert(cat.skip(i as int)[0] == cat[i as int]);
            assert(cat.skip(i as int).drop_first() =~= cat.skip(i + 1));
            if entries[i].0 == owned {
                assert(cat[i as int] == (entries@[i as int].0@, entries@[i as int].1@));
                return entries[i].1.as_str();
            }
            i = i + 1;
        }
        assert(cat.skip(i as int).len() == 0);
        key
    }

    /// Translates and substitutes named `{name}` placeholders in the template string.
    pub fn format(&self, lang: Language, key: &str, vars: &[(&str, &str)]) -> (r: String)
        ensures
            r@ == substitute(translate(self.catalog(lang), key@), var_views(vars@)),
    {
        let template = self.t(lang, key);
        let mut text = chars_of(template);
        let ghost base = text@;
        let mut i: usize = 0;
        assert(var_views(vars@).take(0) =~= Seq::<(Seq<char>, Seq<char>)>::empty());
        while i < vars.len()
            invariant
                i <= vars@.len(),
                base == translate(self.catalog(lang), key@),
                text@ == substitute(base, var_views(vars@).take(i as int)),
            decreases vars@.len() - i,
        {
            let (name, val) = vars[i];
            let mut pat: Vec<char> = vec!['{'];
            let name_chars = chars_of(name);
            let mut k: usize = 0;
            while k < name_chars.len()
                invariant
                    k <= name_chars@.len(),
                    pat@ == seq!['{'] + name_chars@.take(k as int),
                decreases name_chars@.len() - k,
            {
                pat.push(name_chars[k]);
                assert(seq!['{'] + name_chars@.take(k as int).push(name_chars@[k as int]) =~= seq![
                    '{',
                ] + name_chars@.take(k + 1));
                k = k + 1;
            }
            pat.push('}');
            assert(name_chars@.take(name_chars@.len() as int) =~= name_chars@);
            assert(pat@ =~= placeholder(name@));
            let rep = chars_of(val);
            text = replace_chars(&text, &pat, &rep);
            let ghost vs = var_views(vars@);
            assert(vs.take(i + 1).drop_last() =~= vs.take(i as int));
            assert(vs.take(i + 1).last() == (name@, val@));
            i = i + 1;
        }
        assert(var_views(vars@).take(vars@.len() as int) =~= var_views(vars@));
        string_from_chars(&text)
    }
}

} // verus!
