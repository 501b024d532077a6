//! Condensing conversations into knowledge entries: summaries, titles, tags
//! and the knowledge categories a conversation mentions.

use vstd::prelude::*;
use vstd::string::*;
use crate::text::{
    append_chars, chars_of, contains_seq, contains_str, ends_with_seq, ends_with_str, join_first,
    join_seq, lines_of, lines_seq, lowercase, lowercased, ascii_lowered, slice_chars, starts_with_seq,
    starts_with_str, string_of, take_at_most, trim_chars, trim_seq, utf8_len, utf8_len_capped,
    words_of, words_seq, char_width_of, lemma_utf8_len_prefix,
};

verus! {

/// Kind of a stored knowledge entry.
#[derive(PartialEq, Eq, Structural, Clone, Copy, Debug)]
pub enum KnowledgeType {
    Summary,
    Decision,
    BugFix,
    Pattern,
}

/// A knowledge entry ready to be stored.
#[derive(Clone, Debug, PartialEq, Eq)]
pub struct KnowledgeDraft {
    pub kind: KnowledgeType,
    pub title: String,
    pub content: String,
    pub summary: String,
    pub tags: Vec<String>,
}

/// Byte limit of a simple summary before it is cut.
pub open spec fn summary_limit() -> nat {
    200
}

/// The first three lines of `t` joined by single spaces.
pub open spec fn summary_head(t: Seq<char>) -> Seq<char> {
    join_seq(take_at_most(lines_seq(t), 3), " "@)
}

/// The number of leading characters of `h` whose encoding takes exactly `n` bytes.
pub open spec fn cut_point(h: Seq<char>, n: nat) -> int {
    choose|k: int| 0 <= k <= h.len() && utf8_len(h.take(k)) == n
}

/// Cutting the head of `t` at its 200th byte falls between two characters,
/// as byte slicing `&summary[..200]` requires.
pub open spec fn summary_cut_ok(t: Seq<char>) -> bool {
    let h = summary_head(t);
    utf8_len(h) > summary_limit() ==> exists|k: int|
        0 <= k <= h.len() && utf8_len(h.take(k)) == summary_limit()
}

/// The simple summary of `t`: its first three lines joined by spaces, cut to
/// its first 200 bytes followed by `...` when it is longer than that.
pub open spec fn simple_summary(t: Seq<char>) -> Seq<char> {
    let h = summary_head(t);
    if utf8_len(h) > summary_limit() {
        h.take(cut_point(h, summary_limit())) + "..."@
    } else {
        h
    }
}

/// The tags that a lower-cased conversation gets, in their fixed order.
pub open spec fn tags_for(l: Seq<char>) -> Seq<Seq<char>> {
    (if contains_seq(l, "calendar"@) || contains_seq(l, "calendario"@) {
        seq!["calendario"@]
    } else {
        seq![]
    }) + (if contains_seq(l, "evento"@) || contains_seq(l, "event"@) {
        seq!["eventos"@]
    } else {
        seq![]
    }) + (if contains_seq(l, "oauth"@) || contains_seq(l, "autenticación"@) {
        seq!["oauth"@]
    } else {
        seq![]
    }) + (if contains_seq(l, "rust"@) {
        seq!["rust"@]
    } else {
        seq![]
    }) + (if contains_seq(l, "sqlite"@) {
        seq!["sqlite"@]
    } else {
        seq![]
    }) + (if contains_seq(l, "tauri"@) {
        seq!["tauri"@]
    } else {
        seq![]
    })
}

/// A line that can serve as a title once trimmed: non-empty, under 100 bytes,
/// and either a question or of 11 to 79 bytes not starting with `User:` or `AI:`.
pub open spec fn is_title_line(line: Seq<char>) -> bool {
    let l = trim_seq(line);
    &&& l.len() > 0
    &&& utf8_len(l) < 100
    &&& (ends_with_seq(l, "?"@) || (utf8_len(l) > 10 && utf8_len(l) < 80 && !starts_with_seq(
        l,
        "User:"@,
    ) && !starts_with_seq(l, "AI:"@)))
}

/// The first title line among `ls`, trimmed.
pub open spec fn first_title_line(ls: Seq<Seq<char>>) -> Option<Seq<char>>
    decreases ls.len(),
{
    if ls.len() == 0 {
        None
    } else if is_title_line(ls[0]) {
        Some(trim_seq(ls[0]))
    } else {
        first_title_line(ls.drop_first())
    }
}

/// The title of a conversation: its first title line among the first five
/// lines, else its first five words joined by spaces followed by `...`.
pub open spec fn title_of(t: Seq<char>) -> Seq<char> {
    match first_title_line(take_at_most(lines_seq(t), 5)) {
        Some(l) => l,
        None => join_seq(take_at_most(words_seq(t), 5), " "@) + "..."@,
    }
}

/// The title of a knowledge entry of the given type.
pub open spec fn entry_title(knowledge_type: Seq<char>, t: Seq<char>) -> Seq<char> {
    knowledge_type + ": "@ + title_of(t)
}

/// The conversation mentions an architecture decision.
pub open spec fn mentions_decision(t: Seq<char>) -> bool {
    contains_seq(t, "decidimos"@) || contains_seq(t, "arquitectura"@) || contains_seq(
        t,
        "diseño"@,
    ) || contains_seq(t, "implementamos"@)
}

/// The conversation mentions a fixed bug.
pub open spec fn mentions_bugfix(t: Seq<char>) -> bool {
    contains_seq(t, "bug"@) || contains_seq(t, "error"@) || contains_seq(t, "solucionamos"@)
        || contains_seq(t, "corregimos"@)
}

/// The conversation mentions a pattern.
pub open spec fn mentions_pattern(t: Seq<char>) -> bool {
    contains_seq(t, "patrón"@) || contains_seq(t, "pattern"@) || contains_seq(t, "enfoque"@)
}

/// The views of a list of strings.
pub open spec fn string_views(v: Seq<String>) -> Seq<Seq<char>> {
    v.map_values(|s: String| s@)
}

/// `d` is the entry of kind `kind`, titled after `knowledge_type`, with the given tags.
pub open spec fn is_entry_for(
    d: KnowledgeDraft,
    t: Seq<char>,
    kind: KnowledgeType,
    knowledge_type: Seq<char>,
    tags: Seq<Seq<char>>,
) -> bool {
    &&& d.kind == kind
    &&& d.title@ == entry_title(knowledge_type, t)
    &&& d.content@ == t
    &&& d.summary@ == simple_summary(t)
    &&& string_views(d.tags@) == tags
}

/// Strictly more characters take strictly more bytes.
proof fn lemma_utf8_len_strict(s: Seq<char>, j: int, k: int)
    requires
        0 <= j < k <= s.len(),
    ensures
        utf8_len(s.take(j)) < utf8_len(s.take(k)),
    decreases k - j,
{
    assert(s.take(k).drop_last() =~= s.take(k - 1));
    if j < k - 1 {
        lemma_utf8_len_strict(s, j, k - 1);
    }
}

/// Summary of a conversation: its first three lines joined by spaces, cut
/// after 200 bytes (then marked with `...`).
pub fn generate_simple_summary(text: &str) -> (out: String)
    requires
        summary_cut_ok(text@),
    ensures
        out@ == simple_summary(text@),
{
    let t = chars_of(text);
    let ls = lines_of(&t);
    let h = join_first(&ls, 3, " ");
    let ghost hs = summary_head(text@);
    assert(h@ == hs);
    let n = utf8_len_capped(&h, 201);
    if n > 200 {
        let mut k: usize = 0;
        let mut bytes: usize = 0;
        while bytes < 200
            invariant
                h@ == hs,
                h@.len() <= usize::MAX,
                utf8_len(hs) > 200,
                exists|j: int| 0 <= j <= hs.len() && utf8_len(hs.take(j)) == 200,
                k <= h@.len(),
                bytes == utf8_len(hs.take(k as int)),
                bytes <= 200,
            decreases 200 - bytes,
        {
            proof {
                let j = choose|j: int| 0 <= j <= hs.len() && utf8_len(hs.take(j)) == 200;
                if k as int >= j {
                    if k as int > j {
                        lemma_utf8_len_strict(hs, j, k as int);
                    }
                }
                assert(k < j);
                assert(hs.take(k + 1).drop_last() =~= hs.take(k as int));
            }
            bytes = bytes + char_width_of(h[k]);
            k = k + 1;
            proof {
                let j = choose|j: int| 0 <= j <= hs.len() && utf8_len(hs.take(j)) == 200;
                lemma_utf8_len_prefix(hs, k as int, j);
            }
        }
        proof {
            let c = cut_point(hs, 200);
            if c < k {
                lemma_utf8_len_strict(hs, c, k as int);
            } else if c > k {
                lemma_utf8_len_strict(hs, k as int, c);
            }
            assert(c == k);
        }
        let mut cut = slice_chars(&h, 0, k);
        let dots = chars_of("...");
        append_chars(&mut cut, &dots);
        assert(h@.subrange(0, k as int) =~= hs.take(k as int));
        string_of(&cut)
    } else {
        string_of(&h)
    }
}

/// Tags of an already lower-cased conversation.
pub fn tags_from_lowered(lower: &str) -> (tags: Vec<String>)
    ensures
        string_views(tags@) == tags_for(lower@),
{
    let l = chars_of(lower);
    let mut tags: Vec<String> = Vec::new();
    let ghost mut acc: Seq<Seq<char>> = seq![];
    if contains_str(&l, "calendar") || contains_str(&l, "calendario") {
        tags.push(String::from_str("calendario"));
    }
    assert(string_views(tags@) =~= (if contains_seq(lower@, "calendar"@) || contains_seq(
        lower@,
        "calendario"@,
    ) {
        seq!["calendario"@]
    } else {
        seq![]
    }));
    let ghost t1 = string_views(tags@);
    if contains_str(&l, "evento") || contains_str(&l, "event") {
        tags.push(String::from_str("eventos"));
    }
    assert(string_views(tags@) =~= t1 + (if contains_seq(lower@, "evento"@) || contains_seq(
        lower@,
        "event"@,
    ) {
        seq!["eventos"@]
    } else {
        seq![]
    }));
    let ghost t2 = string_views(tags@);
    if contains_str(&l, "oauth") || contains_str(&l, "autenticación") {
        tags.push(String::from_str("oauth"));
    }
    assert(string_views(tags@) =~= t2 + (if contains_seq(lower@, "oauth"@) || contains_seq(
        lower@,
        "autenticación"@,
    ) {
        seq!["oauth"@]
    } else {
        seq![]
    }));
    let ghost t3 = string_views(tags@);
    if contains_str(&l, "rust") {
        tags.push(String::from_str("rust"));
    }
    assert(string_views(tags@) =~= t3 + (if contains_seq(lower@, "rust"@) {
        seq!["rust"@]
    } else {
        seq![]
    }));
    let ghost t4 = string_views(tags@);
    if contains_str(&l, "sqlite") {
        tags.push(String::from_str("sqlite"));
    }
    assert(string_views(tags@) =~= t4 + (if contains_seq(lower@, "sqlite"@) {
        seq!["sqlite"@]
    } else {
        seq![]
    }));
    let ghost t5 = string_views(tags@);
    if contains_str(&l, "tauri") {
        tags.push(String::from_str("tauri"));
    }
    assert(string_views(tags@) =~= t5 + (if contains_seq(lower@, "tauri"@) {
        seq!["tauri"@]
    } else {
        seq![]
    }));
    tags
}

/// Tags of a conversation, found in its lower-cased text.
pub fn extract_tags(text: &str) -> (tags: Vec<String>)
    ensures
        string_views(tags@) == tags_for(lowercased(text@)),
        string_views(tags@) == tags_for(lowercased(ascii_lowered(text@))),
{
    let lower = lowercase(text);
    tags_from_lowered(lower.as_str())
}

/// Tagging ignores the case of ASCII letters: texts that differ only in it
/// get the same tags (`extract_tags` gives `tags_for(lowercased(ascii_lowered(text)))`).
pub proof fn law_tags_ignore_ascii_case(s: Seq<char>, s2: Seq<char>)
    requires
        ascii_lowered(s) == ascii_lowered(s2),
    ensures
        tags_for(lowercased(ascii_lowered(s))) == tags_for(lowercased(ascii_lowered(s2))),
{
}

/// Whether a line can serve as a title, and the trimmed line.
fn title_line(line: &Vec<char>) -> (r: (bool, Vec<char>))
    ensures
        r.0 == is_title_line(line@),
        r.1@ == trim_seq(line@),
{
    let l = trim_chars(line);
    let len = utf8_len_capped(&l, 100);
    let ok = l.len() > 0 && len < 100 && (ends_with_str(&l, "?") || (len > 10 && len < 80
        && !starts_with_str(&l, "User:") && !starts_with_str(&l, "AI:")));
    (ok, l)
}

/// Title of a conversation: the first of its first five lines that looks
/// like a title or a question, else its first five words followed by `...`.
pub fn extract_title(text: &str) -> (title: String)
    ensures
        title@ == title_of(text@),
{
    let t = chars_of(text);
    let ls = lines_of(&t);
    let ghost all = ls@.map_values(|l: Vec<char>| l@);
    let n = if ls.len() < 5 {
        ls.len()
    } else {
        5
    };
    let ghost first = take_at_most(lines_seq(text@), 5);
    assert(first =~= all.subrange(0, n as int));
    let mut i: usize = 0;
    while i < n
        invariant
            n <= ls@.len(),
            i <= n,
            all == ls@.map_values(|l: Vec<char>| l@),
            first == all.subrange(0, n as int),
            first == take_at_most(lines_seq(text@), 5),
            first_title_line(first) == first_title_line(all.subrange(i as int, n as int)),
        decreases n - i,
    {
        let (ok, l) = title_line(&ls[i]);
        assert(all.subrange(i as int, n as int)[0] == ls@[i as int]@);
        assert(all.subrange(i as int, n as int).len() > 0);
        if ok {
            assert(first_title_line(all.subrange(i as int, n as int)) == Some(l@));
            assert(first_title_line(first) == Some(l@));
            assert(first == take_at_most(lines_seq(text@), 5));
            assert(title_of(text@) == l@);
            return string_of(&l);
        }
        assert(all.subrange(i as int, n as int).drop_first() =~= all.subrange(i + 1, n as int));
        i = i + 1;
    }
    let ws = words_of(&t);
    let mut out = join_first(&ws, 5, " ");
    let dots = chars_of("...");
    append_chars(&mut out, &dots);
    string_of(&out)
}

/// Title, content and summary of a knowledge entry of the given type.
pub fn extract_knowledge_entry(text: &str, knowledge_type: &str, _category: &str) -> (r: Option<
    (String, String, String),
>)
    requires
        summary_cut_ok(text@),
    ensures
        r matches Some(e) && e.0@ == entry_title(knowledge_type@, text@) && e.1@ == text@ && e.2@
            == simple_summary(text@),
{
    let mut title = chars_of(knowledge_type);
    let sep = chars_of(": ");
    append_chars(&mut title, &sep);
    let t = extract_title(text);
    let tc = chars_of(t.as_str());
    append_chars(&mut title, &tc);
    let content = String::from_str(text);
    let summary = generate_simple_summary(text);
    Some((string_of(&title), content, summary))
}

/// A list of strings from literals.
fn strings_of(a: &str, b: Option<&str>) -> (v: Vec<String>)
    ensures
        string_views(v@) == (match b {
            Some(b) => seq![a@, b@],
            None => seq![a@],
        }),
{
    let mut v: Vec<String> = Vec::new();
    v.push(String::from_str(a));
    match b {
        Some(b) => {
            v.push(String::from_str(b));
            assert(string_views(v@) =~= seq![a@, b@]);
        },
        None => {
            assert(string_views(v@) =~= seq![a@]);
        },
    }
    v
}

/// The entries to store for a conversation, in order: an architecture
/// decision when it mentions one, a fixed bug when it mentions one, a pattern
/// when it mentions one.
pub fn knowledge_drafts(text: &str) -> (drafts: Vec<KnowledgeDraft>)
    requires
        summary_cut_ok(text@),
    ensures
        drafts@.len() == (if mentions_decision(text@) {
            1int
        } else {
            0
        }) + (if mentions_bugfix(text@) {
            1int
        } else {
            0
        }) + (if mentions_pattern(text@) {
            1int
        } else {
            0
        }),
        mentions_decision(text@) ==> is_entry_for(
            drafts@[0],
            text@,
            KnowledgeType::Decision,
            "decisión de arquitectura"@,
            seq!["arquitectura"@, "decisión"@],
        ),
        mentions_bugfix(text@) ==> is_entry_for(
            drafts@[if mentions_decision(text@) {
                1int
            } else {
                0
            }],
            text@,
            KnowledgeType::BugFix,
            "bug resuelto"@,
            seq!["bug"@, "solución"@],
        ),
        mentions_pattern(text@) ==> is_entry_for(
            drafts@[drafts@.len() - 1],
            text@,
            KnowledgeType::Pattern,
            "patrón descubierto"@,
            seq!["patrón"@],
        ),
{
    let t = chars_of(text);
    let mut drafts: Vec<KnowledgeDraft> = Vec::new();
    if contains_str(&t, "decidimos") || contains_str(&t, "arquitectura") || contains_str(
        &t,
        "diseño",
    ) || contains_str(&t, "implementamos") {
        if let Some((title, content, summary)) = extract_knowledge_entry(
            text,
            "decisión de arquitectura",
            "decision",
        ) {
            drafts.push(
                KnowledgeDraft {
                    kind: KnowledgeType::Decision,
                    title,
                    content,
                    summary,
                    tags: strings_of("arquitectura", Some("decisión")),
                },
            );
        }
    }
    let ghost n1 = drafts@.len();
    if contains_str(&t, "bug") || contains_str(&t, "error") || contains_str(&t, "solucionamos")
        || contains_str(&t, "corregimos") {
        if let Some((title, content, summary)) = extract_knowledge_entry(
            text,
            "bug resuelto",
            "bugfix",
        ) {
            drafts.push(
                KnowledgeDraft {
                    kind: KnowledgeType::BugFix,
                    title,
                    content,
                    summary,
                    tags: strings_of("bug", Some("solución")),
                },
            );
        }
    }
    if contains_str(&t, "patrón") || contains_str(&t, "pattern") || contains_str(&t, "enfoque") {
        if let Some((title, content, summary)) = extract_knowledge_entry(
            text,
            "patrón descubierto",
            "pattern",
        ) {
            drafts.push(
                KnowledgeDraft {
                    kind: KnowledgeType::Pattern,
                    title,
                    content,
                    summary,
                    tags: strings_of("patrón", None),
                },
            );
        }
    }
    drafts
}

/// The summary entry of a conversation: its title, the whole text, its simple
/// summary and its tags.
pub fn summary_draft(text: &str) -> (d: KnowledgeDraft)
    requires
        summary_cut_ok(text@),
    ensures
        d.kind == KnowledgeType::Summary,
        d.title@ == title_of(text@),
        d.content@ == text@,
        d.summary@ == simple_summary(text@),
        string_views(d.tags@) == tags_for(lowercased(text@)),
{
    let summary = generate_simple_summary(text);
    let tags = extract_tags(text);
    let title = extract_title(text);
    KnowledgeDraft { kind: KnowledgeType::Summary, title, content: String::from_str(text), summary, tags }
}


/// Answer when the store of memories cannot be reached.
pub const MEMORY_UNAVAILABLE_MESSAGE: &'static str = "No se pudo acceder al módulo de memoria";

/// Answer when the store of memories was never set up.
pub const MEMORY_UNINITIALIZED_MESSAGE: &'static str = "Módulo de memoria no inicializado";

/// Opens the answer for a summary that could not be saved.
pub const SUMMARY_SAVE_HEAD: &'static str = "Error al guardar resumen: ";

/// Refuses to save memories when the store cannot be reached or was never set up.
pub fn memory_access_check(reachable: bool, initialized: bool) -> (r: Result<(), String>)
    ensures
        r is Ok <==> reachable && initialized,
        !reachable ==> (r matches Err(m) && m@ == MEMORY_UNAVAILABLE_MESSAGE@),
        reachable && !initialized ==> (r matches Err(m) && m@ == MEMORY_UNINITIALIZED_MESSAGE@),
{
    if !reachable {
        Err(String::from_str(MEMORY_UNAVAILABLE_MESSAGE))
    } else if !initialized {
        Err(String::from_str(MEMORY_UNINITIALIZED_MESSAGE))
    } else {
        Ok(())
    }
}

/// The answer to saving a conversation's summary: the id of the saved entry,
/// or the store's failure after `SUMMARY_SAVE_HEAD`.
pub fn summary_save_answer(outcome: Result<i64, String>) -> (r: Result<i64, String>)
    ensures
        match outcome {
            Ok(id) => r == Ok::<i64, String>(id),
            Err(e) => r matches Err(m) && m@ == SUMMARY_SAVE_HEAD@ + e@,
        },
{
    match outcome {
        Ok(id) => Ok(id),
        Err(e) => {
            let mut out = chars_of(SUMMARY_SAVE_HEAD);
            let ec = chars_of(e.as_str());
            append_chars(&mut out, &ec);
            Err(string_of(&out))
        },
    }
}

/// The ids of the saves that succeeded, in order.
pub open spec fn saved_ids_spec(outcomes: Seq<Result<i64, String>>) -> Seq<i64>
    decreases outcomes.len(),
{
    if outcomes.len() == 0 {
        Seq::empty()
    } else {
        let rest = saved_ids_spec(outcomes.drop_last());
        match outcomes.last() {
            Ok(id) => rest.push(id),
            Err(_) => rest,
        }
    }
}

/// The ids of the knowledge entries that were saved; a failed save is skipped.
pub fn saved_ids(outcomes: &Vec<Result<i64, String>>) -> (ids: Vec<i64>)
    ensures
        ids@ == saved_ids_spec(outcomes@),
{
    let mut ids: Vec<i64> = Vec::new();
    let mut i: usize = 0;
    while i < outcomes.len()
        invariant
            i <= outcomes@.len(),
            ids@ == saved_ids_spec(outcomes@.take(i as int)),
        decreases outcomes@.len() - i,
    {
        assert(outcomes@.take(i + 1).drop_last() =~= outcomes@.take(i as int));
        match &outcomes[i] {
            Ok(id) => {
                ids.push(*id);
            },
            Err(_) => {},
        }
        i = i + 1;
    }
    assert(outcomes@.take(outcomes@.len() as int) =~= outcomes@);
    ids
}


/// Each tag is given exactly when the lower-cased text mentions one of its
/// keywords: `calendario` for "calendar"/"calendario", `eventos` for
/// "evento"/"event", `oauth` for "oauth"/"autenticación", and `rust`,
/// `sqlite`, `tauri` for their own names.
pub proof fn law_tags_follow_keywords(l: Seq<char>)
    ensures
        tags_for(l).contains("calendario"@) <==> (contains_seq(l, "calendar"@) || contains_seq(
            l,
            "calendario"@,
        )),
        tags_for(l).contains("eventos"@) <==> (contains_seq(l, "evento"@) || contains_seq(
            l,
            "event"@,
        )),
        tags_for(l).contains("oauth"@) <==> (contains_seq(l, "oauth"@) || contains_seq(
            l,
            "autenticación"@,
        )),
        tags_for(l).contains("rust"@) <==> contains_seq(l, "rust"@),
        tags_for(l).contains("sqlite"@) <==> contains_seq(l, "sqlite"@),
        tags_for(l).contains("tauri"@) <==> contains_seq(l, "tauri"@),
{
    reveal_strlit("calendario");
    reveal_strlit("eventos");
    reveal_strlit("oauth");
    reveal_strlit("rust");
    reveal_strlit("sqlite");
    reveal_strlit("tauri");
    let a = if contains_seq(l, "calendar"@) || contains_seq(l, "calendario"@) {
        seq!["calendario"@]
    } else {
        Seq::<Seq<char>>::empty()
    };
    let b = if contains_seq(l, "evento"@) || contains_seq(l, "event"@) {
        seq!["eventos"@]
    } else {
        Seq::<Seq<char>>::empty()
    };
    let c = if contains_seq(l, "oauth"@) || contains_seq(l, "autenticación"@) {
        seq!["oauth"@]
    } else {
        Seq::<Seq<char>>::empty()
    };
    let d = if contains_seq(l, "rust"@) {
        seq!["rust"@]
    } else {
        Seq::<Seq<char>>::empty()
    };
    let e = if contains_seq(l, "sqlite"@) {
        seq!["sqlite"@]
    } else {
        Seq::<Seq<char>>::empty()
    };
    let f = if contains_seq(l, "tauri"@) {
        seq!["tauri"@]
    } else {
        Seq::<Seq<char>>::empty()
    };
    assert(tags_for(l) == a + b + c + d + e + f);
    let names = seq!["calendario"@, "eventos"@, "oauth"@, "rust"@, "sqlite"@, "tauri"@];
    assert("oauth"@[0] != "tauri"@[0]);
    assert forall|k: int| 0 <= k < names.len() implies {
        let x = #[trigger] names[k];
        &&& (a + b + c + d + e + f).contains(x) <==> (a.contains(x) || b.contains(x) || c.contains(x)
            || d.contains(x) || e.contains(x) || f.contains(x))
        &&& a.contains(x) <==> (x == "calendario"@ && a.len() > 0)
        &&& b.contains(x) <==> (x == "eventos"@ && b.len() > 0)
        &&& c.contains(x) <==> (x == "oauth"@ && c.len() > 0)
        &&& d.contains(x) <==> (x == "rust"@ && d.len() > 0)
        &&& e.contains(x) <==> (x == "sqlite"@ && e.len() > 0)
        &&& f.contains(x) <==> (x == "tauri"@ && f.len() > 0)
    } by {
        let x = names[k];
        lemma_concat_contains(a + b + c + d + e, f, x);
        lemma_concat_contains(a + b + c + d, e, x);
        lemma_concat_contains(a + b + c, d, x);
        lemma_concat_contains(a + b, c, x);
        lemma_concat_contains(a, b, x);
        lemma_single_contains(a, "calendario"@, x);
        lemma_single_contains(b, "eventos"@, x);
        lemma_single_contains(c, "oauth"@, x);
        lemma_single_contains(d, "rust"@, x);
        lemma_single_contains(e, "sqlite"@, x);
        lemma_single_contains(f, "tauri"@, x);
    }
    assert(names[0] == "calendario"@);
    assert(names[1] == "eventos"@);
    assert(names[2] == "oauth"@);
    assert(names[3] == "rust"@);
    assert(names[4] == "sqlite"@);
    assert(names[5] == "tauri"@);
}

proof fn lemma_concat_contains(a: Seq<Seq<char>>, b: Seq<Seq<char>>, x: Seq<char>)
    ensures
        (a + b).contains(x) <==> (a.contains(x) || b.contains(x)),
{
    if a.contains(x) {
        let i = choose|i: int| 0 <= i < a.len() && a[i] == x;
        assert((a + b)[i] == x);
    }
    if b.contains(x) {
        let i = choose|i: int| 0 <= i < b.len() && b[i] == x;
        assert((a + b)[a.len() + i] == x);
    }
    if (a + b).contains(x) {
        let i = choose|i: int| 0 <= i < (a + b).len() && (a + b)[i] == x;
        if i < a.len() {
            assert(a[i] == x);
        } else {
            assert(b[i - a.len()] == x);
        }
    }
}

proof fn lemma_single_contains(s: Seq<Seq<char>>, y: Seq<char>, x: Seq<char>)
    requires
        s == seq![y] || s == Seq::<Seq<char>>::empty(),
    ensures
        s.contains(x) <==> (x == y && s.len() > 0),
{
    if s.len() > 0 {
        assert(s[0] == y);
    }
}

} // verus!
