//! Prompt clarification: questions for missing fields, suggested and
//! enriched prompts, and topic extraction.
use vstd::prelude::*;
use vstd::string::*;

use crate::llm::standards::{FieldDefinition, MinimumRequirementField, ContentGap, GapRecord, priority_name, input_type_name};
use crate::json::{JsonValue, json_get, json_present, get, is_field_present_in_json};
use crate::text::{clone_strings, listed, is_listed, str_is, chars_of, trim_chars, lower_chars, upper_chars, replace_chars, tokens_in, push_all, eq_chars, any_occurs_exec, char_to_uppercase, string_of, trim, lowercase_of, replace_all, all_tokens_in, any_occurs, has_token, has_digit, lookup, seq_contains, join, dec, has_digit_exec, lookup_exec, contains_chars, concat_chars, join_chars, dec_chars, replace_chars as replace_seq, views, occurs_at, find_chars, byte_len, byte_len_exec, boundary_index, boundary_index_exec, utf8_len, seq_starts_with, all_ascii, ascii_lower_seq, lower_of, upper_of, ascii_upper_seq, upper_char_of};

verus! {

/// The question asked for a minimum-requirement field.
pub open spec fn requirement_question(field_id: Seq<char>, label: Seq<char>) -> Seq<char> {
    if field_id == "target_audience"@ {
        "Untuk jenjang/kelas berapa materi ini ditujukan?"@
    } else if field_id == "output_type"@ {
        "Format file apa yang Anda inginkan? (PDF, Word, PowerPoint)"@
    } else if field_id == "learning_objectives"@ {
        "Apa tujuan pembelajaran dari konten ini?"@
    } else if field_id == "page_count"@ {
        "Berapa jumlah halaman yang diinginkan?"@
    } else if field_id == "slide_count"@ {
        "Berapa jumlah slide yang diinginkan?"@
    } else if field_id == "include_activities"@ {
        "Apakah perlu disertakan latihan/soal?"@
    } else if field_id == "meeting_duration"@ {
        "Berapa lama durasi pertemuan?"@
    } else if field_id == "teaching_method"@ {
        "Metode pembelajaran apa yang digunakan?"@
    } else if field_id == "assessment_method"@ {
        "Bagaimana cara penilaian siswa?"@
    } else if field_id == "difficulty_level"@ {
        "Tingkat kesulitan materi ini?"@
    } else if field_id == "question_count"@ {
        "Berapa jumlah soal yang diinginkan?"@
    } else if field_id == "visual_density"@ {
        "Bagaimana tampilan slide yang diinginkan?"@
    } else if field_id == "speaker_notes"@ {
        "Apakah perlu disertakan catatan presenter?"@
    } else if field_id == "question_type"@ {
        "Jenis soal apa yang diinginkan?"@
    } else {
        "Informasi tambahan untuk "@ + label + "?"@
    }
}

/// The question asked for a content-standard field.
pub open spec fn field_question(field_id: Seq<char>, label: Seq<char>) -> Seq<char> {
    if field_id == "target_audience"@ {
        "Untuk jenjang/kelas berapa?"@
    } else if field_id == "output_type"@ {
        "Format file apa yang Anda inginkan?"@
    } else if field_id == "page_count"@ {
        "Berapa jumlah halaman yang diinginkan?"@
    } else if field_id == "slide_count"@ {
        "Berapa jumlah slide yang diinginkan?"@
    } else if field_id == "learning_objectives"@ {
        "Apa tujuan pembelajaran dari konten ini?"@
    } else if field_id == "include_activities"@ {
        "Apakah perlu disertakan latihan/soal?"@
    } else if field_id == "meeting_duration"@ {
        "Berapa lama durasi pertemuan?"@
    } else if field_id == "teaching_method"@ {
        "Metode pembelajaran apa yang digunakan?"@
    } else if field_id == "assessment_method"@ {
        "Bagaimana cara penilaian siswa?"@
    } else if field_id == "difficulty_level"@ {
        "Tingkat kesulitan materi ini?"@
    } else if field_id == "question_count"@ {
        "Berapa jumlah soal yang diinginkan?"@
    } else if field_id == "visual_density"@ {
        "Bagaimana tampilan slide yang diinginkan?"@
    } else if field_id == "speaker_notes"@ {
        "Apakah perlu disertakan catatan presenter?"@
    } else {
        "Informasi tambahan untuk "@ + label + "?"@
    }
}

fn fallback_question(label: &str) -> (r: String)
    ensures
        r@ == "Informasi tambahan untuk "@ + label@ + "?"@,
{
    let s = String::from_str("Informasi tambahan untuk ");
    let s = s.concat(label);
    s.concat("?")
}

/// Natural-language question for a minimum-requirement field.
pub fn build_question_from_requirement(field: &MinimumRequirementField) -> (r: String)
    ensures
        r@ == requirement_question(field.field_id@, field.field_label@),
{
    let id = field.field_id.as_str();
    if str_is(id, "target_audience") {
        String::from_str("Untuk jenjang/kelas berapa materi ini ditujukan?")
    } else if str_is(id, "output_type") {
        String::from_str("Format file apa yang Anda inginkan? (PDF, Word, PowerPoint)")
    } else if str_is(id, "learning_objectives") {
        String::from_str("Apa tujuan pembelajaran dari konten ini?")
    } else if str_is(id, "page_count") {
        String::from_str("Berapa jumlah halaman yang diinginkan?")
    } else if str_is(id, "slide_count") {
        String::from_str("Berapa jumlah slide yang diinginkan?")
    } else if str_is(id, "include_activities") {
        String::from_str("Apakah perlu disertakan latihan/soal?")
    } else if str_is(id, "meeting_duration") {
        String::from_str("Berapa lama durasi pertemuan?")
    } else if str_is(id, "teaching_method") {
        String::from_str("Metode pembelajaran apa yang digunakan?")
    } else if str_is(id, "assessment_method") {
        String::from_str("Bagaimana cara penilaian siswa?")
    } else if str_is(id, "difficulty_level") {
        String::from_str("Tingkat kesulitan materi ini?")
    } else if str_is(id, "question_count") {
        String::from_str("Berapa jumlah soal yang diinginkan?")
    } else if str_is(id, "visual_density") {
        String::from_str("Bagaimana tampilan slide yang diinginkan?")
    } else if str_is(id, "speaker_notes") {
        String::from_str("Apakah perlu disertakan catatan presenter?")
    } else if str_is(id, "question_type") {
        String::from_str("Jenis soal apa yang diinginkan?")
    } else {
        fallback_question(field.field_label.as_str())
    }
}

/// Natural-language question for a content-standard field.
pub fn build_question(field: &FieldDefinition) -> (r: String)
    ensures
        r@ == field_question(field.field_id@, field.label_id@),
{
    let id = field.field_id;
    if str_is(id, "target_audience") {
        String::from_str("Untuk jenjang/kelas berapa?")
    } else if str_is(id, "output_type") {
        String::from_str("Format file apa yang Anda inginkan?")
    } else if str_is(id, "page_count") {
        String::from_str("Berapa jumlah halaman yang diinginkan?")
    } else if str_is(id, "slide_count") {
        String::from_str("Berapa jumlah slide yang diinginkan?")
    } else if str_is(id, "learning_objectives") {
        String::from_str("Apa tujuan pembelajaran dari konten ini?")
    } else if str_is(id, "include_activities") {
        String::from_str("Apakah perlu disertakan latihan/soal?")
    } else if str_is(id, "meeting_duration") {
        String::from_str("Berapa lama durasi pertemuan?")
    } else if str_is(id, "teaching_method") {
        String::from_str("Metode pembelajaran apa yang digunakan?")
    } else if str_is(id, "assessment_method") {
        String::from_str("Bagaimana cara penilaian siswa?")
    } else if str_is(id, "difficulty_level") {
        String::from_str("Tingkat kesulitan materi ini?")
    } else if str_is(id, "question_count") {
        String::from_str("Berapa jumlah soal yang diinginkan?")
    } else if str_is(id, "visual_density") {
        String::from_str("Bagaimana tampilan slide yang diinginkan?")
    } else if str_is(id, "speaker_notes") {
        String::from_str("Apakah perlu disertakan catatan presenter?")
    } else {
        fallback_question(field.label_id)
    }
}

} // verus!

verus! {

/// Format words that show an output type is already named in a prompt.
pub open spec fn suggested_format_words(output_lower: Seq<char>) -> Seq<Seq<char>> {
    if output_lower == "pptx"@ {
        seq!["ppt"@, "pptx"@, "powerpoint"@, "slide"@, "presentasi"@, "slideshow"@]
    } else if output_lower == "pdf"@ {
        seq!["pdf"@]
    } else if output_lower == "docx"@ {
        seq!["docx"@, "doc"@, "word"@, "dokumen"@]
    } else {
        seq![]
    }
}

/// The trimmed prompt with the audience and output format appended when the
/// prompt does not already mention them.
pub open spec fn suggested_body(raw: Seq<char>, audience: Option<Seq<char>>, output: Option<Seq<char>>) -> Seq<char> {
    let base = trim(raw);
    let lower = lower_of(base);
    let with_audience = match audience {
        Some(a) => if all_tokens_in(lower, lower_of(replace_all(a, "_"@, " "@))) {
            base
        } else {
            base + " untuk "@ + a
        },
        None => base,
    };
    match output {
        Some(o) => if any_occurs(lower, suggested_format_words(lower_of(o))) {
            with_audience
        } else {
            with_audience + " dalam format "@ + upper_of(o)
        },
        None => with_audience,
    }
}

/// `s` with its first character uppercased and a full stop added unless it
/// already ends in `.`, `?` or `!`; empty stays empty.
pub open spec fn capitalized_sentence(s: Seq<char>) -> Seq<char> {
    if s.len() == 0 {
        Seq::empty()
    } else {
        let c = upper_char_of(s[0]) + s.drop_first();
        if c.len() > 0 && (c.last() == '.' || c.last() == '?' || c.last() == '!') {
            c
        } else {
            c.push('.')
        }
    }
}

/// The suggested prompt shown to the teacher.
pub open spec fn suggested_prompt(raw: Seq<char>, audience: Option<Seq<char>>, output: Option<Seq<char>>) -> Seq<char> {
    capitalized_sentence(suggested_body(raw, audience, output))
}

/// The character view of an optional string.
pub open spec fn opt_view(o: Option<&str>) -> Option<Seq<char>> {
    match o {
        Some(s) => Some(s@),
        None => None,
    }
}

/// Suggested prompt: the trimmed prompt, plus " untuk <audience>" unless
/// every word of the audience already occurs in it, plus " dalam format
/// <OUTPUT>" unless a matching format word occurs in it; then the first
/// letter is capitalised and a full stop is added when missing.
pub fn build_suggested_prompt(
    raw_prompt: &str,
    audience: Option<&str>,
    output_type: Option<&str>,
    _content_type: &crate::llm::standards::ContentType,
) -> (r: String)
    ensures
        r@ == suggested_prompt(raw_prompt@, opt_view(audience), opt_view(output_type)),
{
    let raw_chars = chars_of(raw_prompt);
    let base = trim_chars(raw_chars.as_slice());
    let lower = lower_chars(base.as_slice());
    let mut result = base.clone();
    let ghost with_audience: Seq<char>;
    match audience {
        Some(a) => {
            let ac = chars_of(a);
            let us = chars_of("_");
            proof {
                reveal_strlit("_");
            }
            let sp = chars_of(" ");
            let replaced = replace_chars(ac.as_slice(), us.as_slice(), sp.as_slice());
            let al = lower_chars(replaced.as_slice());
            let (all_in, _) = tokens_in(lower.as_slice(), al.as_slice());
            if !all_in {
                push_all(&mut result, chars_of(" untuk ").as_slice());
                push_all(&mut result, ac.as_slice());
            }
        },
        None => {},
    }
    match output_type {
        Some(o) => {
            let oc = chars_of(o);
            let ol = lower_chars(oc.as_slice());
            let words: Vec<&str> = if eq_chars(ol.as_slice(), chars_of("pptx").as_slice()) {
                vec!["ppt", "pptx", "powerpoint", "slide", "presentasi", "slideshow"]
            } else if eq_chars(ol.as_slice(), chars_of("pdf").as_slice()) {
                vec!["pdf"]
            } else if eq_chars(ol.as_slice(), chars_of("docx").as_slice()) {
                vec!["docx", "doc", "word", "dokumen"]
            } else {
                vec![]
            };
            assert(words@.map_values(|p: &str| p@) =~= suggested_format_words(ol@));
            if !any_occurs_exec(lower.as_slice(), &words) {
                push_all(&mut result, chars_of(" dalam format ").as_slice());
                push_all(&mut result, upper_chars(oc.as_slice()).as_slice());
            }
        },
        None => {},
    }
    assert(result@ == suggested_body(raw_prompt@, opt_view(audience), opt_view(output_type)));
    if result.len() == 0 {
        return String::new();
    }
    let mut out = char_to_uppercase(result[0]);
    let mut i: usize = 1;
    let ghost out0 = out@;
    while i < result.len()
        invariant
            1 <= i <= result.len(),
            out@ == out0 + result@.subrange(1, i as int),
        decreases result.len() - i,
    {
        out.push(result[i]);
        i += 1;
        assert(out@ =~= out0 + result@.subrange(1, i as int));
    }
    assert(result@.subrange(1, result@.len() as int) =~= result@.drop_first());
    let n = out.len();
    if !(n > 0 && (out[n - 1] == '.' || out[n - 1] == '?' || out[n - 1] == '!')) {
        out.push('.');
    }
    string_of(out.as_slice())
}

} // verus!

verus! {

/// Every word of the needle (underscores read as spaces, lowercased) occurs
/// in `h`, and the needle has at least one word.
pub open spec fn mentions_all_words(h: Seq<char>, needle: Seq<char>) -> bool {
    let n = lower_of(replace_all(needle, "_"@, " "@));
    has_token(n) && all_tokens_in(h, n)
}

/// `h` holds a digit and one of the unit words.
pub open spec fn mentions_quantity(h: Seq<char>, units: Seq<Seq<char>>) -> bool {
    has_digit(h) && any_occurs(h, units)
}

/// Words showing the prompt already names the file format.
pub open spec fn enrich_format_words(o: Seq<char>) -> Seq<Seq<char>> {
    if o == "pptx"@ {
        seq!["ppt"@, "pptx"@, "powerpoint"@, "slide"@, "slides"@, "presentasi"@, "presentation"@, "slideshow"@]
    } else if o == "pdf"@ {
        seq!["pdf"@, "dokumen pdf"@]
    } else {
        seq!["docx"@, "doc"@, "word"@, "dokumen word"@, "lembar kerja"@]
    }
}

/// Unit words for a page count.
pub open spec fn page_units() -> Seq<Seq<char>> {
    seq!["halaman"@, "hal"@, "page"@, "pages"@, "pg"@, "pgs"@]
}

/// Unit words for a slide count.
pub open spec fn slide_units() -> Seq<Seq<char>> {
    seq!["slide"@, "slides"@, "halaman"@, "hal"@, "ppt"@, "pptx"@, "deck"@, "presentasi"@]
}

/// Unit words for a question count.
pub open spec fn question_units() -> Seq<Seq<char>> {
    seq!["soal"@, "pertanyaan"@, "kuis"@, "quiz"@, "question"@, "questions"@]
}

/// Words showing the prompt already asks for activities.
pub open spec fn activity_words() -> Seq<Seq<char>> {
    seq!["latihan"@, "soal"@, "kuis"@, "aktivitas"@, "activity"@, "exercise"@, "quiz"@]
}

/// The label used for a page-count answer.
pub open spec fn page_label(p: Seq<char>) -> Seq<char> {
    if p == "short"@ { "2-3 halaman"@ } else if p == "medium"@ { "5-7 halaman"@ } else if p == "long"@ { "10+ halaman"@ } else { p }
}

/// The label used for a slide-count answer.
pub open spec fn slide_label(p: Seq<char>) -> Seq<char> {
    if p == "short"@ { "8-10 slide"@ } else if p == "medium"@ { "15-20 slide"@ } else if p == "long"@ { "25+ slide"@ } else { p }
}

/// A phrase, or nothing.
pub open spec fn phrase_if(c: bool, p: Seq<char>) -> Seq<Seq<char>> {
    if c { seq![p] } else { seq![] }
}

/// Phrase for the audience answer.
pub open spec fn audience_part(h: Seq<char>, ans: Seq<(String, String)>) -> Seq<Seq<char>> {
    match lookup(ans, "target_audience"@) {
        Some(a) => {
            let ac = replace_all(a, "_"@, " "@);
            phrase_if(!mentions_all_words(h, ac), "untuk jenjang "@ + ac)
        },
        None => seq![],
    }
}

/// Phrase for the output-format answer.
pub open spec fn output_part(h: Seq<char>, ans: Seq<(String, String)>) -> Seq<Seq<char>> {
    match lookup(ans, "output_type"@) {
        Some(o) => {
            let ol = lower_of(o);
            let known = if ol == "pptx"@ || ol == "pdf"@ || ol == "docx"@ {
                any_occurs(h, enrich_format_words(ol))
            } else {
                seq_contains(h, ol)
            };
            phrase_if(!known, "dalam format "@ + upper_of(o))
        },
        None => seq![],
    }
}

/// Phrase for the page-count answer.
pub open spec fn pages_part(h: Seq<char>, ans: Seq<(String, String)>) -> Seq<Seq<char>> {
    match lookup(ans, "page_count"@) {
        Some(p) => phrase_if(!mentions_quantity(h, page_units()), "sebanyak "@ + page_label(p)),
        None => seq![],
    }
}

/// Phrase for the slide-count answer.
pub open spec fn slides_part(h: Seq<char>, ans: Seq<(String, String)>) -> Seq<Seq<char>> {
    match lookup(ans, "slide_count"@) {
        Some(p) => phrase_if(!mentions_quantity(h, slide_units()), "sebanyak "@ + slide_label(p)),
        None => seq![],
    }
}

/// Phrase for the learning-objectives answer.
pub open spec fn objectives_part(h: Seq<char>, ans: Seq<(String, String)>) -> Seq<Seq<char>> {
    match lookup(ans, "learning_objectives"@) {
        Some(o) => {
            let t = trim(o);
            phrase_if(t.len() > 0 && !seq_contains(h, lower_of(t)), "dengan tujuan pembelajaran: "@ + t)
        },
        None => seq![],
    }
}

/// Phrase for the difficulty answer.
pub open spec fn difficulty_part(h: Seq<char>, ans: Seq<(String, String)>) -> Seq<Seq<char>> {
    match lookup(ans, "difficulty_level"@) {
        Some(d) => phrase_if(!seq_contains(h, lower_of(d)), "tingkat kesulitan "@ + d),
        None => seq![],
    }
}

/// Phrase for the question-count answer.
pub open spec fn questions_part(h: Seq<char>, ans: Seq<(String, String)>) -> Seq<Seq<char>> {
    match lookup(ans, "question_count"@) {
        Some(c) => phrase_if(!mentions_quantity(h, question_units()), "dengan "@ + c + " soal"@),
        None => seq![],
    }
}

/// Phrase for the teaching-method answer.
pub open spec fn method_part(h: Seq<char>, ans: Seq<(String, String)>) -> Seq<Seq<char>> {
    match lookup(ans, "teaching_method"@) {
        Some(m) => {
            let mc = replace_all(m, "_"@, " "@);
            phrase_if(!seq_contains(h, lower_of(mc)), "dengan metode "@ + mc)
        },
        None => seq![],
    }
}

/// Phrase for the include-activities answer.
pub open spec fn activities_part(h: Seq<char>, ans: Seq<(String, String)>) -> Seq<Seq<char>> {
    match lookup(ans, "include_activities"@) {
        Some(a) => phrase_if(a == "yes"@ && !any_occurs(h, activity_words()), "sertakan latihan/soal"@),
        None => seq![],
    }
}

/// The phrases appended for the answered fields, in order, each only when
/// the prompt (lowercased as `h`) does not already state it.
pub open spec fn answer_phrases(h: Seq<char>, ans: Seq<(String, String)>) -> Seq<Seq<char>> {
    audience_part(h, ans) + output_part(h, ans) + pages_part(h, ans) + slides_part(h, ans)
        + objectives_part(h, ans) + difficulty_part(h, ans) + questions_part(h, ans)
        + method_part(h, ans) + activities_part(h, ans)
}

/// The answer given for slide `i`: under `slide_<i>`, or, when that key is
/// absent, under `slide_<i>_content`.
pub open spec fn slide_answer(ans: Seq<(String, String)>, i: nat) -> Option<Seq<char>> {
    match lookup(ans, "slide_"@ + dec(i)) {
        Some(c) => Some(c),
        None => lookup(ans, "slide_"@ + dec(i) + "_content"@),
    }
}

/// "Slide <i>: <content>" lines for slides `1..=n` with non-blank content.
pub open spec fn slide_lines(ans: Seq<(String, String)>, n: nat) -> Seq<Seq<char>>
    decreases n,
{
    if n == 0 {
        seq![]
    } else {
        let prev = slide_lines(ans, (n - 1) as nat);
        match slide_answer(ans, n) {
            Some(c) => if trim(c).len() > 0 {
                prev.push("Slide "@ + dec(n) + ": "@ + c)
            } else {
                prev
            },
            None => prev,
        }
    }
}

/// The enriched prompt before the final punctuation clean-up: the trimmed
/// prompt, then ", " and the answer phrases joined by ", ", then ". " and the
/// per-slide details when any slide content was given.
pub open spec fn enriched_body(raw: Seq<char>, ans: Seq<(String, String)>) -> Seq<char> {
    let base = trim(raw);
    let h = lower_of(base);
    let phrases = answer_phrases(h, ans);
    let lines = slide_lines(ans, 20);
    let with_phrases = if phrases.len() > 0 { base + ", "@ + join(phrases, ", "@) } else { base };
    if lines.len() > 0 {
        with_phrases + ". "@ + "Rincian isi per slide:\n"@ + join(lines, "\n"@)
    } else {
        with_phrases
    }
}

/// The enriched prompt.
pub open spec fn enriched_prompt(raw: Seq<char>, ans: Seq<(String, String)>) -> Seq<char> {
    replace_all(replace_all(replace_all(enriched_body(raw, ans), ", ,"@, ","@), ",."@, "."@), ".."@, "."@)
}

} // verus!

verus! {

fn phrase_vec(cond: bool, phrase: Vec<char>) -> (r: Vec<Vec<char>>)
    ensures
        views(r@) == phrase_if(cond, phrase@),
{
    let mut r: Vec<Vec<char>> = Vec::new();
    if cond {
        r.push(phrase);
        assert(views(r@) =~= seq![phrase@]);
    } else {
        assert(views(r@) =~= Seq::<Seq<char>>::empty());
    }
    r
}

fn audience_phrase(h: &Vec<char>, answers: &Vec<(String, String)>) -> (r: Vec<Vec<char>>)
    ensures
        views(r@) == audience_part(h@, answers@),
{
    proof {
        reveal_strlit("_");
    }
    let us = chars_of("_");
    let sp = chars_of(" ");
    match lookup_exec(answers, chars_of("target_audience").as_slice()) {
        Some(a) => {
            let ac = replace_seq(a.as_slice(), us.as_slice(), sp.as_slice());
            let n = lower_chars(replace_seq(ac.as_slice(), us.as_slice(), sp.as_slice()).as_slice());
            let (all_in, any) = tokens_in(h.as_slice(), n.as_slice());
            phrase_vec(!(any && all_in), concat_chars(chars_of("untuk jenjang ").as_slice(), ac.as_slice()))
        },
        None => phrase_vec(false, Vec::new()),
    }
}

fn output_phrase(h: &Vec<char>, answers: &Vec<(String, String)>) -> (r: Vec<Vec<char>>)
    ensures
        views(r@) == output_part(h@, answers@),
{
    match lookup_exec(answers, chars_of("output_type").as_slice()) {
        Some(o) => {
            let ol = lower_chars(o.as_slice());
            let known = if eq_chars(ol.as_slice(), chars_of("pptx").as_slice()) {
                let w = vec!["ppt", "pptx", "powerpoint", "slide", "slides", "presentasi", "presentation", "slideshow"];
                assert(w@.map_values(|p: &str| p@) =~= enrich_format_words(ol@));
                any_occurs_exec(h.as_slice(), &w)
            } else if eq_chars(ol.as_slice(), chars_of("pdf").as_slice()) {
                let w = vec!["pdf", "dokumen pdf"];
                assert(w@.map_values(|p: &str| p@) =~= enrich_format_words(ol@));
                any_occurs_exec(h.as_slice(), &w)
            } else if eq_chars(ol.as_slice(), chars_of("docx").as_slice()) {
                let w = vec!["docx", "doc", "word", "dokumen word", "lembar kerja"];
                assert(w@.map_values(|p: &str| p@) =~= enrich_format_words(ol@));
                any_occurs_exec(h.as_slice(), &w)
            } else {
                contains_chars(h.as_slice(), ol.as_slice())
            };
            phrase_vec(!known, concat_chars(chars_of("dalam format ").as_slice(), upper_chars(o.as_slice()).as_slice()))
        },
        None => phrase_vec(false, Vec::new()),
    }
}

fn pages_phrase(h: &Vec<char>, answers: &Vec<(String, String)>) -> (r: Vec<Vec<char>>)
    ensures
        views(r@) == pages_part(h@, answers@),
{
    match lookup_exec(answers, chars_of("page_count").as_slice()) {
        Some(p) => {
            let label = if eq_chars(p.as_slice(), chars_of("short").as_slice()) {
                chars_of("2-3 halaman")
            } else if eq_chars(p.as_slice(), chars_of("medium").as_slice()) {
                chars_of("5-7 halaman")
            } else if eq_chars(p.as_slice(), chars_of("long").as_slice()) {
                chars_of("10+ halaman")
            } else {
                p
            };
            let w = vec!["halaman", "hal", "page", "pages", "pg", "pgs"];
            assert(w@.map_values(|p: &str| p@) =~= page_units());
            let known = has_digit_exec(h.as_slice()) && any_occurs_exec(h.as_slice(), &w);
            phrase_vec(!known, concat_chars(chars_of("sebanyak ").as_slice(), label.as_slice()))
        },
        None => phrase_vec(false, Vec::new()),
    }
}

fn slides_phrase(h: &Vec<char>, answers: &Vec<(String, String)>) -> (r: Vec<Vec<char>>)
    ensures
        views(r@) == slides_part(h@, answers@),
{
    match lookup_exec(answers, chars_of("slide_count").as_slice()) {
        Some(p) => {
            let label = if eq_chars(p.as_slice(), chars_of("short").as_slice()) {
                chars_of("8-10 slide")
            } else if eq_chars(p.as_slice(), chars_of("medium").as_slice()) {
                chars_of("15-20 slide")
            } else if eq_chars(p.as_slice(), chars_of("long").as_slice()) {
                chars_of("25+ slide")
            } else {
                p
            };
            let w = vec!["slide", "slides", "halaman", "hal", "ppt", "pptx", "deck", "presentasi"];
            assert(w@.map_values(|p: &str| p@) =~= slide_units());
            let known = has_digit_exec(h.as_slice()) && any_occurs_exec(h.as_slice(), &w);
            phrase_vec(!known, concat_chars(chars_of("sebanyak ").as_slice(), label.as_slice()))
        },
        None => phrase_vec(false, Vec::new()),
    }
}

fn objectives_phrase(h: &Vec<char>, answers: &Vec<(String, String)>) -> (r: Vec<Vec<char>>)
    ensures
        views(r@) == objectives_part(h@, answers@),
{
    match lookup_exec(answers, chars_of("learning_objectives").as_slice()) {
        Some(o) => {
            let t = trim_chars(o.as_slice());
            let cond = if t.len() > 0 {
                let tl = lower_chars(t.as_slice());
                !contains_chars(h.as_slice(), tl.as_slice())
            } else {
                false
            };
            phrase_vec(cond, concat_chars(chars_of("dengan tujuan pembelajaran: ").as_slice(), t.as_slice()))
        },
        None => phrase_vec(false, Vec::new()),
    }
}

fn difficulty_phrase(h: &Vec<char>, answers: &Vec<(String, String)>) -> (r: Vec<Vec<char>>)
    ensures
        views(r@) == difficulty_part(h@, answers@),
{
    match lookup_exec(answers, chars_of("difficulty_level").as_slice()) {
        Some(d) => {
            let dl = lower_chars(d.as_slice());
            let cond = !contains_chars(h.as_slice(), dl.as_slice());
            phrase_vec(cond, concat_chars(chars_of("tingkat kesulitan ").as_slice(), d.as_slice()))
        },
        None => phrase_vec(false, Vec::new()),
    }
}

fn questions_phrase(h: &Vec<char>, answers: &Vec<(String, String)>) -> (r: Vec<Vec<char>>)
    ensures
        views(r@) == questions_part(h@, answers@),
{
    match lookup_exec(answers, chars_of("question_count").as_slice()) {
        Some(c) => {
            let w = vec!["soal", "pertanyaan", "kuis", "quiz", "question", "questions"];
            assert(w@.map_values(|p: &str| p@) =~= question_units());
            let known = has_digit_exec(h.as_slice()) && any_occurs_exec(h.as_slice(), &w);
            let phrase = concat_chars(concat_chars(chars_of("dengan ").as_slice(), c.as_slice()).as_slice(), chars_of(" soal").as_slice());
            phrase_vec(!known, phrase)
        },
        None => phrase_vec(false, Vec::new()),
    }
}

fn method_phrase(h: &Vec<char>, answers: &Vec<(String, String)>) -> (r: Vec<Vec<char>>)
    ensures
        views(r@) == method_part(h@, answers@),
{
    proof {
        reveal_strlit("_");
    }
    match lookup_exec(answers, chars_of("teaching_method").as_slice()) {
        Some(m) => {
            let mc = replace_seq(m.as_slice(), chars_of("_").as_slice(), chars_of(" ").as_slice());
            let ml = lower_chars(mc.as_slice());
            let cond = !contains_chars(h.as_slice(), ml.as_slice());
            phrase_vec(cond, concat_chars(chars_of("dengan metode ").as_slice(), mc.as_slice()))
        },
        None => phrase_vec(false, Vec::new()),
    }
}

fn activities_phrase(h: &Vec<char>, answers: &Vec<(String, String)>) -> (r: Vec<Vec<char>>)
    ensures
        views(r@) == activities_part(h@, answers@),
{
    match lookup_exec(answers, chars_of("include_activities").as_slice()) {
        Some(a) => {
            let cond = if eq_chars(a.as_slice(), chars_of("yes").as_slice()) {
                let w = vec!["latihan", "soal", "kuis", "aktivitas", "activity", "exercise", "quiz"];
                assert(w@.map_values(|p: &str| p@) =~= activity_words());
                !any_occurs_exec(h.as_slice(), &w)
            } else {
                false
            };
            phrase_vec(cond, chars_of("sertakan latihan/soal"))
        },
        None => phrase_vec(false, Vec::new()),
    }
}

fn append_all(a: &mut Vec<Vec<char>>, b: Vec<Vec<char>>)
    ensures
        views(final(a)@) == views(old(a)@) + views(b@),
{
    let mut b = b;
    let ghost bv = b@;
    a.append(&mut b);
    assert(views(a@) =~= views(old(a)@) + views(bv));
}

fn slide_lines_exec(answers: &Vec<(String, String)>) -> (r: Vec<Vec<char>>)
    ensures
        views(r@) == slide_lines(answers@, 20),
{
    let mut lines: Vec<Vec<char>> = Vec::new();
    let mut i: u32 = 1;
    assert(views(lines@) =~= Seq::<Seq<char>>::empty());
    while i <= 20
        invariant
            1 <= i <= 21,
            views(lines@) == slide_lines(answers@, (i - 1) as nat),
        decreases 21 - i,
    {
        let key = concat_chars(chars_of("slide_").as_slice(), dec_chars(i).as_slice());
        let found = match lookup_exec(answers, key.as_slice()) {
            Some(c) => Some(c),
            None => {
                let key2 = concat_chars(key.as_slice(), chars_of("_content").as_slice());
                lookup_exec(answers, key2.as_slice())
            },
        };
        let ghost before = views(lines@);
        match found {
            Some(c) => {
                if trim_chars(c.as_slice()).len() > 0 {
                    let line = concat_chars(
                        concat_chars(concat_chars(chars_of("Slide ").as_slice(), dec_chars(i).as_slice()).as_slice(), chars_of(": ").as_slice()).as_slice(),
                        c.as_slice(),
                    );
                    let ghost lv = line@;
                    lines.push(line);
                    assert(views(lines@) =~= before.push(lv));
                }
            },
            None => {},
        }
        assert(views(lines@) == slide_lines(answers@, i as nat));
        i += 1;
    }
    lines
}

/// A prompt to analyse before generation.
#[derive(Debug, Clone)]
pub struct PreflightInput {
    pub raw_prompt: String,
    pub preferred_output_type: Option<String>,
    pub subject_id: Option<i64>,
    pub sub_subject_id: Option<i64>,
}

/// The teacher's confirmation of an enriched prompt, with the answers to
/// the clarification questions as field id and value pairs.
#[derive(Debug, Clone)]
pub struct ConfirmInput {
    pub generation_id: String,
    pub enriched_prompt: String,
    pub answers: Vec<(String, String)>,
    pub subject_id: Option<i64>,
    pub sub_subject_id: Option<i64>,
}

/// What a confirmation queued.
#[derive(Debug, Clone)]
pub struct ConfirmResult {
    pub generation_id: String,
    pub job_id: String,
    pub status: String,
    pub poll_url: String,
}

/// Prompt preflight analysis and clarification; it holds no state.
pub struct ClarificationService;

impl ClarificationService {

/// Enrich a prompt with the teacher's clarification answers.
///
/// `answers` pairs each answered field id with its value; the first pair
/// with a given id counts. Each answered field adds a phrase unless the
/// prompt already states it, the phrases are joined with ", ", per-slide
/// contents (`slide_1` .. `slide_20`, or `slide_<i>_content`) follow after
/// ". ", and ", ,", ",." and ".." are then collapsed.
///
/// Enriching is idempotent under `idempotence_conditions`: a prompt that an
/// enrichment with the same answers produced comes back unchanged.
pub fn enrich_prompt(raw_prompt: &str, answers: &Vec<(String, String)>) -> (r: String)
    ensures
        r@ == enriched_prompt(raw_prompt@, answers@),
        forall|raw1: Seq<char>|
            (#[trigger] enriched_prompt(raw1, answers@)) == raw_prompt@ && idempotence_conditions(raw1, answers@)
            ==> r@ == raw_prompt@,
{
    proof {
        reveal_strlit("_");
        reveal_strlit(", ,");
        reveal_strlit(",.");
        reveal_strlit("..");
    }
    let raw_chars = chars_of(raw_prompt);
    let base = trim_chars(raw_chars.as_slice());
    let h = lower_chars(base.as_slice());
    let mut phrases = audience_phrase(&h, answers);
    append_all(&mut phrases, output_phrase(&h, answers));
    append_all(&mut phrases, pages_phrase(&h, answers));
    append_all(&mut phrases, slides_phrase(&h, answers));
    append_all(&mut phrases, objectives_phrase(&h, answers));
    append_all(&mut phrases, difficulty_phrase(&h, answers));
    append_all(&mut phrases, questions_phrase(&h, answers));
    append_all(&mut phrases, method_phrase(&h, answers));
    append_all(&mut phrases, activities_phrase(&h, answers));
    assert(views(phrases@) == answer_phrases(h@, answers@));
    let lines = slide_lines_exec(answers);

    let mut enriched = base.clone();
    if phrases.len() > 0 {
        push_all(&mut enriched, chars_of(", ").as_slice());
        push_all(&mut enriched, join_chars(&phrases, chars_of(", ").as_slice()).as_slice());
    }
    if lines.len() > 0 {
        push_all(&mut enriched, chars_of(". ").as_slice());
        push_all(&mut enriched, chars_of("Rincian isi per slide:\n").as_slice());
        push_all(&mut enriched, join_chars(&lines, chars_of("\n").as_slice()).as_slice());
    }
    assert(enriched@ == enriched_body(raw_prompt@, answers@));
    let e1 = replace_seq(enriched.as_slice(), chars_of(", ,").as_slice(), chars_of(",").as_slice());
    let e2 = replace_seq(e1.as_slice(), chars_of(",.").as_slice(), chars_of(".").as_slice());
    let e3 = replace_seq(e2.as_slice(), chars_of("..").as_slice(), chars_of(".").as_slice());
    proof {
        assert forall|raw1: Seq<char>|
            (#[trigger] enriched_prompt(raw1, answers@)) == raw_prompt@ && idempotence_conditions(raw1, answers@)
            implies enriched_prompt(raw_prompt@, answers@) == raw_prompt@ by {
            lemma_enrich_round(raw1, answers@);
            let b1 = trim(raw1);
            let e = raw_prompt@;
            let t = e.skip(b1.len() as int);
            assert(base@ == e);
            if t.len() > 0 {
                assert(crate::text::ascii_comma_tail(base@, b1.len() as int));
                assert(e.take(b1.len() as int) =~= b1);
            }
            lemma_lower_split(e, b1, t);
        }
    }
    string_of(e3.as_slice())
}

}

} // verus!

verus! {

/// Markers after which a prompt names its topic, in the order tried.
pub open spec fn topic_markers() -> Seq<Seq<char>> {
    seq!["tentang "@, "about "@, "materi "@, "topik "@, "topic "@]
}

/// First position of `n` in `h` (meaningful when `n` occurs in `h`).
pub open spec fn first_occurrence(h: Seq<char>, n: Seq<char>) -> int {
    choose|i: int| occurs_at(h, n, i) && forall|k: int| 0 <= k < i ==> !occurs_at(h, n, k)
}

/// `c` ends a topic phrase.
pub open spec fn is_topic_stop(c: char) -> bool {
    c == '.' || c == ',' || c == '!' || c == '?'
}

/// Position of the first `.`, `,`, `!` or `?` in `s`, or its length.
pub open spec fn first_stop(s: Seq<char>) -> int
    decreases s.len(),
{
    if s.len() == 0 {
        0
    } else if is_topic_stop(s[0]) {
        0
    } else {
        1 + first_stop(s.drop_first())
    }
}

/// Topic scan over the markers from `i` on: `None` when slicing the
/// prompt at a marker's byte offset would not fall on a character
/// boundary (the scan cannot complete), otherwise the topic found, if any.
/// The topic is the trimmed text after the first occurrence of a marker in
/// the lowercased prompt, up to the next `.`, `,`, `!` or `?`, and counts
/// only when it is longer than two bytes.
pub open spec fn topic_scan(prompt: Seq<char>, i: nat) -> Option<Option<Seq<char>>>
    decreases 5 - i,
{
    if i >= 5 {
        Some(None)
    } else {
        let lower = lowercase_of(prompt);
        let m = topic_markers()[i as int];
        if !seq_contains(lower, m) {
            topic_scan(prompt, i + 1)
        } else {
            let start = byte_len(lower.take(first_occurrence(lower, m))) + m.len();
            match boundary_index(prompt, start as int) {
                None => None,
                Some(k) => {
                    let rest = prompt.skip(k);
                    let topic = trim(rest.take(first_stop(rest)));
                    if topic.len() > 0 && byte_len(topic) > 2 {
                        Some(Some(topic))
                    } else {
                        topic_scan(prompt, i + 1)
                    }
                },
            }
        }
    }
}

/// Whether a topic can be extracted from `prompt` without slicing it off a
/// character boundary.
pub open spec fn topic_extractable(prompt: Seq<char>) -> bool {
    topic_scan(prompt, 0) is Some
}

fn first_stop_exec(s: &[char]) -> (r: usize)
    ensures
        r == first_stop(s@),
        r <= s.len(),
{
    let mut i: usize = 0;
    assert(s@.skip(0) =~= s@);
    while i < s.len() && !(s[i] == '.' || s[i] == ',' || s[i] == '!' || s[i] == '?')
        invariant
            i <= s.len(),
            first_stop(s@) == i + first_stop(s@.skip(i as int)),
        decreases s.len() - i,
    {
        assert(s@.skip(i as int).drop_first() =~= s@.skip(i + 1));
        i += 1;
    }
    i
}

fn subrange_vec(s: &[char], from: usize, to: usize) -> (r: Vec<char>)
    requires
        from <= to <= s.len(),
    ensures
        r@ == s@.subrange(from as int, to as int),
{
    let mut r: Vec<char> = Vec::new();
    let mut k: usize = from;
    while k < to
        invariant
            from <= k <= to <= s.len(),
            r@ == s@.subrange(from as int, k as int),
        decreases to - k,
    {
        r.push(s[k]);
        k += 1;
        assert(r@ =~= s@.subrange(from as int, k as int));
    }
    r
}

/// The view of a scan outcome.
pub open spec fn scan_view(r: Option<Option<String>>) -> Option<Option<Seq<char>>> {
    match r {
        Some(Some(t)) => Some(Some(t@)),
        Some(None) => Some(None),
        None => None,
    }
}

/// Topic scan that reports, instead of slicing off a character boundary,
/// that the prompt's lowercase form shifts the marker away from a boundary
/// of the prompt (`None`); otherwise the topic found, if any.
pub fn scan_topic(prompt: &str) -> (r: Option<Option<String>>)
    ensures
        scan_view(r) == topic_scan(prompt@, 0),
        all_ascii(prompt@) ==> r is Some,
        r matches Some(Some(t)) ==> topic_shape(prompt@, t@),
{
    let p = chars_of(prompt);
    let lower = lower_chars(p.as_slice());
    proof {
        lemma_topic_shape(prompt@);
        if all_ascii(prompt@) {
            lemma_ascii_topic_scan(prompt@, 0);
        }
    }
    let markers: Vec<&str> = vec!["tentang ", "about ", "materi ", "topik ", "topic "];
    assert(markers@.map_values(|m: &str| m@) =~= topic_markers());
    let mut i: usize = 0;
    while i < 5
        invariant
            i <= 5,
            markers@.len() == 5,
            markers@.map_values(|m: &str| m@) == topic_markers(),
            topic_scan(prompt@, 0) == topic_scan(prompt@, i as nat),
            p@ == prompt@,
            lower@ == lowercase_of(prompt@),
            all_ascii(prompt@) ==> topic_scan(prompt@, 0) is Some,
            topic_scan(prompt@, 0) matches Some(Some(t)) ==> topic_shape(prompt@, t),
        decreases 5 - i,
    {
        let m = chars_of(markers[i]);
        assert(m@ == topic_markers()[i as int]);
        match find_chars(lower.as_slice(), m.as_slice()) {
            None => {},
            Some(ci) => {
                assert(ci as int == first_occurrence(lower@, m@));
                let pre = subrange_vec(lower.as_slice(), 0, ci);
                assert(pre@ =~= lower@.take(ci as int));
                let start = byte_len_exec(pre.as_slice()) + (m.len() as u128);
                match boundary_index_exec(p.as_slice(), start) {
                    None => {
                        return None;
                    },
                    Some(k) => {
                        assert(k <= p.len()) by {
                            lemma_boundary_in_range(p@, start as int);
                        }
                        let rest = subrange_vec(p.as_slice(), k, p.len());
                        assert(rest@ =~= p@.skip(k as int));
                        let e = first_stop_exec(rest.as_slice());
                        let head = subrange_vec(rest.as_slice(), 0, e);
                        assert(head@ =~= rest@.take(e as int));
                        let topic = trim_chars(head.as_slice());
                        if topic.len() > 0 && byte_len_exec(topic.as_slice()) > 2 {
                            return Some(Some(string_of(topic.as_slice())));
                        }
                    },
                }
            },
        }
        i += 1;
    }
    Some(None)
}

/// Extract a topic hint from a prompt: the text after "tentang ", "about ",
/// "materi ", "topik " or "topic " (tried in that order, matched in the
/// lowercased prompt), up to the next punctuation mark, trimmed, when it is
/// longer than two bytes.
pub fn extract_topic(prompt: &str) -> (r: Option<String>)
    requires
        topic_extractable(prompt@) || all_ascii(prompt@),
    ensures
        topic_scan(prompt@, 0) == Some(match r {
            Some(t) => Some(t@),
            None => None::<Seq<char>>,
        }),
        r matches Some(t) ==> topic_shape(prompt@, t@),
{
    match scan_topic(prompt) {
        Some(t) => t,
        None => None,
    }
}

proof fn lemma_boundary_in_range(s: Seq<char>, b: int)
    ensures
        boundary_index(s, b) matches Some(k) ==> 0 <= k <= s.len(),
    decreases s.len(),
{
    if b != 0 && s.len() > 0 && b >= utf8_len(s[0]) {
        lemma_boundary_in_range(s.drop_first(), b - utf8_len(s[0]));
    }
}

/// What holds of an extracted topic: it is longer than two bytes, already
/// trimmed, a piece of the prompt, free of `.`, `,`, `!` and `?`, and some
/// marker occurs in the lowercased prompt.
pub open spec fn topic_shape(prompt: Seq<char>, t: Seq<char>) -> bool {
    &&& byte_len(t) > 2
    &&& trim(t) == t
    &&& seq_contains(prompt, t)
    &&& forall|j: int| 0 <= j < t.len() ==> !is_topic_stop(#[trigger] t[j])
    &&& exists|m: int| 0 <= m < 5 && seq_contains(lowercase_of(prompt), #[trigger] topic_markers()[m])
}

proof fn lemma_first_stop(s: Seq<char>)
    ensures
        0 <= first_stop(s) <= s.len(),
        forall|j: int| 0 <= j < first_stop(s) ==> !is_topic_stop(#[trigger] s[j]),
        first_stop(s) < s.len() ==> is_topic_stop(s[first_stop(s)]),
    decreases s.len(),
{
    if s.len() > 0 && !is_topic_stop(s[0]) {
        lemma_first_stop(s.drop_first());
        if first_stop(s) < s.len() {
            assert(s[first_stop(s)] == s.drop_first()[first_stop(s) - 1]);
        }
        assert forall|j: int| 0 <= j < first_stop(s) implies !is_topic_stop(#[trigger] s[j]) by {
            if j > 0 {
                assert(s[j] == s.drop_first()[j - 1]);
            }
        }
    }
}

proof fn lemma_topic_scan_shape(prompt: Seq<char>, i: nat)
    ensures
        topic_scan(prompt, i) matches Some(Some(t)) ==> topic_shape(prompt, t),
    decreases 5 - i,
{
    if i < 5 {
        let lower = lowercase_of(prompt);
        let m = topic_markers()[i as int];
        if !seq_contains(lower, m) {
            lemma_topic_scan_shape(prompt, i + 1);
        } else {
            let start = byte_len(lower.take(first_occurrence(lower, m))) + m.len();
            match boundary_index(prompt, start as int) {
                None => {},
                Some(k) => {
                    lemma_boundary_in_range(prompt, start as int);
                    let rest = prompt.skip(k);
                    let e = first_stop(rest);
                    lemma_first_stop(rest);
                    let head = rest.take(e);
                    let topic = trim(head);
                    if topic.len() > 0 && byte_len(topic) > 2 {
                        let i0 = crate::text::lemma_trim_shape(head);
                        assert(prompt.subrange(k + i0, k + i0 + topic.len()) =~= topic);
                        assert(occurs_at(prompt, topic, k + i0));
                        assert forall|j: int| 0 <= j < topic.len() implies !is_topic_stop(#[trigger] topic[j]) by {
                            assert(topic[j] == rest[i0 + j]);
                        }
                        assert(seq_contains(lower, topic_markers()[i as int]));
                    } else {
                        lemma_topic_scan_shape(prompt, i + 1);
                    }
                },
            }
        }
    }
}

proof fn lemma_topic_scan_ends(prompt: Seq<char>, i: nat)
    ensures
        topic_scan(prompt, i) matches Some(Some(t)) ==> {
            &&& forall|j: int| 0 <= j < t.len() ==> t[j] != '.' && t[j] != ',' && t[j] != '!' && t[j] != '?'
            &&& exists|a: int, b: int| {
                &&& 0 <= a <= b <= prompt.len()
                &&& t == trim(prompt.subrange(a, b))
                &&& forall|j: int| a <= j < b ==> prompt[j] != '.' && prompt[j] != ',' && prompt[j] != '!' && prompt[j] != '?'
                &&& b == prompt.len() || prompt[b] == '.' || prompt[b] == ',' || prompt[b] == '!' || prompt[b] == '?'
            }
        },
    decreases 5 - i,
{
    if i < 5 {
        let lower = lowercase_of(prompt);
        let m = topic_markers()[i as int];
        if !seq_contains(lower, m) {
            lemma_topic_scan_ends(prompt, i + 1);
        } else {
            let start = byte_len(lower.take(first_occurrence(lower, m))) + m.len();
            match boundary_index(prompt, start as int) {
                None => {},
                Some(k) => {
                    lemma_boundary_in_range(prompt, start as int);
                    let rest = prompt.skip(k);
                    let e = first_stop(rest);
                    lemma_first_stop(rest);
                    let head = rest.take(e);
                    let topic = trim(head);
                    if topic.len() > 0 && byte_len(topic) > 2 {
                        let i0 = crate::text::lemma_trim_shape(head);
                        assert forall|j: int| 0 <= j < topic.len() implies
                            topic[j] != '.' && topic[j] != ',' && topic[j] != '!' && topic[j] != '?' by {
                            assert(topic[j] == rest[i0 + j]);
                            assert(!is_topic_stop(rest[i0 + j]));
                        }
                        assert(head =~= prompt.subrange(k, k + e));
                        assert forall|j: int| k <= j < k + e implies
                            prompt[j] != '.' && prompt[j] != ',' && prompt[j] != '!' && prompt[j] != '?' by {
                            assert(prompt[j] == rest[j - k]);
                            assert(!is_topic_stop(rest[j - k]));
                        }
                        if k + e < prompt.len() {
                            assert(prompt[k + e] == rest[e]);
                        }
                    } else {
                        lemma_topic_scan_ends(prompt, i + 1);
                    }
                },
            }
        }
    }
}

/// An extracted topic holds none of `.`, `,`, `!` and `?`, and is the
/// trimmed piece of the prompt that runs from where it starts up to the
/// first of those characters (or the end of the prompt).
pub proof fn lemma_topic_ends_at_stop(prompt: Seq<char>)
    ensures
        topic_scan(prompt, 0) matches Some(Some(t)) ==> {
            &&& forall|j: int| 0 <= j < t.len() ==> t[j] != '.' && t[j] != ',' && t[j] != '!' && t[j] != '?'
            &&& exists|a: int, b: int| {
                &&& 0 <= a <= b <= prompt.len()
                &&& t == trim(prompt.subrange(a, b))
                &&& forall|j: int| a <= j < b ==> prompt[j] != '.' && prompt[j] != ',' && prompt[j] != '!' && prompt[j] != '?'
                &&& b == prompt.len() || prompt[b] == '.' || prompt[b] == ',' || prompt[b] == '!' || prompt[b] == '?'
            }
        },
{
    lemma_topic_scan_ends(prompt, 0);
}

/// Every topic that extraction finds is longer than two bytes, already
/// trimmed, a piece of the prompt, free of `.`, `,`, `!` and `?`, and comes
/// after a marker that occurs in the lowercased prompt.
pub proof fn lemma_topic_shape(prompt: Seq<char>)
    ensures
        topic_scan(prompt, 0) matches Some(Some(t)) ==> topic_shape(prompt, t),
{
    lemma_topic_scan_shape(prompt, 0);
}

proof fn lemma_byte_len_ascii(s: Seq<char>)
    requires
        all_ascii(s),
    ensures
        byte_len(s) == s.len(),
    decreases s.len(),
{
    if s.len() > 0 {
        assert(all_ascii(s.drop_last()));
        lemma_byte_len_ascii(s.drop_last());
    }
}

proof fn lemma_boundary_ascii(s: Seq<char>, b: int)
    requires
        all_ascii(s),
        0 <= b <= s.len(),
    ensures
        boundary_index(s, b) == Some(b),
    decreases s.len(),
{
    if b != 0 {
        assert(all_ascii(s.drop_first()));
        lemma_boundary_ascii(s.drop_first(), b - 1);
    }
}

proof fn lemma_min_occurrence(h: Seq<char>, n: Seq<char>, w: int)
    requires
        occurs_at(h, n, w),
    ensures
        occurs_at(h, n, first_occurrence(h, n)),
        first_occurrence(h, n) <= w,
    decreases w,
{
    if exists|k: int| 0 <= k < w && occurs_at(h, n, k) {
        let k = choose|k: int| 0 <= k < w && occurs_at(h, n, k);
        lemma_min_occurrence(h, n, k);
    } else {
        let f = first_occurrence(h, n);
        assert(occurs_at(h, n, w) && forall|k: int| 0 <= k < w ==> !occurs_at(h, n, k));
        assert(occurs_at(h, n, f) && forall|k: int| 0 <= k < f ==> !occurs_at(h, n, k));
        if f > w {
            assert(!occurs_at(h, n, w));
        }
    }
}

proof fn lemma_ascii_lower_ascii(s: Seq<char>)
    requires
        all_ascii(s),
    ensures
        all_ascii(ascii_lower_seq(s)),
        ascii_lower_seq(s).len() == s.len(),
{
    assert forall|i: int| 0 <= i < ascii_lower_seq(s).len() implies (ascii_lower_seq(s)[i] as u32) < 0x80 by {
        let c = s[i];
        if 'A' <= c && c <= 'Z' {
            assert((c as u32) + 32 < 0x80);
        }
    }
}

proof fn lemma_ascii_prefix_bytes(prompt: Seq<char>, f: int)
    requires
        all_ascii(prompt),
        0 <= f <= prompt.len(),
    ensures
        byte_len(ascii_lower_seq(prompt).take(f)) == f,
{
    lemma_ascii_lower_ascii(prompt);
    let pre = ascii_lower_seq(prompt).take(f);
    assert forall|j: int| 0 <= j < pre.len() implies (pre[j] as u32) < 0x80 by {
        assert(pre[j] == ascii_lower_seq(prompt)[j]);
    }
    lemma_byte_len_ascii(pre);
}

proof fn lemma_ascii_marker_start(prompt: Seq<char>, m: Seq<char>)
    requires
        all_ascii(prompt),
        lowercase_of(prompt) == ascii_lower_seq(prompt),
        seq_contains(lowercase_of(prompt), m),
    ensures
        boundary_index(
            prompt,
            (byte_len(lowercase_of(prompt).take(first_occurrence(lowercase_of(prompt), m))) + m.len()) as int,
        ) is Some,
{
    let lower = lowercase_of(prompt);
    lemma_first_occurrence_bounds(lower, m);
    let f = first_occurrence(lower, m);
    assert(lower.len() == prompt.len());
    lemma_ascii_prefix_bytes(prompt, f);
    lemma_boundary_ascii(prompt, f + m.len());
}

proof fn lemma_first_occurrence_bounds(h: Seq<char>, n: Seq<char>)
    requires
        seq_contains(h, n),
    ensures
        0 <= first_occurrence(h, n),
        first_occurrence(h, n) + n.len() <= h.len(),
{
    let w = choose|w: int| occurs_at(h, n, w);
    lemma_min_occurrence(h, n, w);
}

proof fn lemma_ascii_topic_scan(prompt: Seq<char>, i: nat)
    requires
        all_ascii(prompt),
        lowercase_of(prompt) == ascii_lower_seq(prompt),
    ensures
        topic_scan(prompt, i) is Some,
    decreases 5 - i,
{
    if i < 5 {
        let m = topic_markers()[i as int];
        if seq_contains(lowercase_of(prompt), m) {
            lemma_ascii_marker_start(prompt, m);
        }
        lemma_ascii_topic_scan(prompt, i + 1);
    }
}

} // verus!

verus! {

/// A content-standard field that needs no question: the audience, output
/// type or subject when already detected, or a field whose value the prompt
/// itself gives (`found_in_prompt`).
pub open spec fn field_known(
    field_id: Seq<char>,
    found_in_prompt: Seq<String>,
    has_audience: bool,
    has_output_type: bool,
    has_subject: bool,
) -> bool {
    ||| field_id == "target_audience"@ && has_audience
    ||| field_id == "output_type"@ && has_output_type
    ||| field_id == "subject"@ && has_subject
    ||| listed(found_in_prompt, field_id)
}

/// The gap that asks for a content-standard field.
pub open spec fn field_gap(f: FieldDefinition) -> GapRecord {
    GapRecord {
        field_id: f.field_id@,
        question: field_question(f.field_id@, f.label_id@),
        priority: priority_name(f.priority),
        input_type: input_type_name(f.input_type),
        suggestions: f.suggestions@,
        detected_value: None,
    }
}

/// The gaps of the fields that are not known, in field order.
pub open spec fn standard_gaps(
    fields: Seq<FieldDefinition>,
    found_in_prompt: Seq<String>,
    has_audience: bool,
    has_output_type: bool,
    has_subject: bool,
) -> Seq<GapRecord>
    decreases fields.len(),
{
    if fields.len() == 0 {
        Seq::empty()
    } else {
        let prefix = standard_gaps(fields.drop_last(), found_in_prompt, has_audience, has_output_type, has_subject);
        let f = fields.last();
        if field_known(f.field_id@, found_in_prompt, has_audience, has_output_type, has_subject) {
            prefix
        } else {
            prefix.push(field_gap(f))
        }
    }
}

/// The views of a list of gaps.
pub open spec fn gap_views(v: Seq<ContentGap>) -> Seq<GapRecord> {
    v.map_values(|g: ContentGap| g@)
}

/// Gaps of a content standard: one question per field that is neither
/// auto-detected (audience, output type, subject) nor given by the prompt.
///
/// `found_in_prompt` holds the ids of the fields whose value the prompt
/// already states, as the content standards' prompt detection finds them.
pub fn compute_gaps(
    standards: &Vec<FieldDefinition>,
    found_in_prompt: &Vec<String>,
    detected_audience: Option<&str>,
    detected_output_type: Option<&str>,
    subject_id: Option<i64>,
) -> (r: Vec<ContentGap>)
    ensures
        gap_views(r@) == standard_gaps(
            standards@,
            found_in_prompt@,
            detected_audience is Some,
            detected_output_type is Some,
            subject_id is Some,
        ),
{
    let mut gaps: Vec<ContentGap> = Vec::new();
    let mut i: usize = 0;
    assert(standards@.take(0) =~= Seq::<FieldDefinition>::empty());
    while i < standards.len()
        invariant
            i <= standards.len(),
            gap_views(gaps@) == standard_gaps(
                standards@.take(i as int),
                found_in_prompt@,
                detected_audience is Some,
                detected_output_type is Some,
                subject_id is Some,
            ),
        decreases standards.len() - i,
    {
        let field = &standards[i];
        assert(standards@.take(i + 1).drop_last() =~= standards@.take(i as int));
        let id = field.field_id;
        let known = (str_is(id, "target_audience") && detected_audience.is_some())
            || (str_is(id, "output_type") && detected_output_type.is_some())
            || (str_is(id, "subject") && subject_id.is_some())
            || is_listed(found_in_prompt, id);
        if !known {
            let gap = ContentGap {
                field_id: String::from_str(id),
                question: build_question(field),
                priority: String::from_str(field.priority.as_str()),
                input_type: String::from_str(field.input_type.as_str()),
                suggestions: clone_strings(&field.suggestions),
                detected_value: None,
            };
            let ghost before = gaps@;
            gaps.push(gap);
            assert(gap_views(gaps@) =~= gap_views(before).push(field_gap(*field)));
        }
        i = i + 1;
    }
    assert(standards@.take(standards.len() as int) =~= standards@);
    gaps
}

/// A minimum-requirement field is missing when the interpretation does not
/// give it (see `json_present`) and the prompt does not state it.
pub open spec fn requirement_missing(
    f: MinimumRequirementField,
    interpreted: JsonValue,
    found_in_prompt: Seq<String>,
) -> bool {
    !json_present(json_get(interpreted, f.field_id@)) && !listed(found_in_prompt, f.field_id@)
}

/// The gap that asks for a minimum-requirement field.
pub open spec fn requirement_gap(f: MinimumRequirementField, priority: Seq<char>) -> GapRecord {
    GapRecord {
        field_id: f.field_id@,
        question: requirement_question(f.field_id@, f.field_label@),
        priority: priority,
        input_type: f.input_type@,
        suggestions: f.suggestions@,
        detected_value: None,
    }
}

/// The gaps of the missing fields of `fields`, in order, with a priority.
pub open spec fn requirement_gaps(
    fields: Seq<MinimumRequirementField>,
    interpreted: JsonValue,
    found_in_prompt: Seq<String>,
    priority: Seq<char>,
) -> Seq<GapRecord>
    decreases fields.len(),
{
    if fields.len() == 0 {
        Seq::empty()
    } else {
        let prefix = requirement_gaps(fields.drop_last(), interpreted, found_in_prompt, priority);
        if requirement_missing(fields.last(), interpreted, found_in_prompt) {
            prefix.push(requirement_gap(fields.last(), priority))
        } else {
            prefix
        }
    }
}

/// At most `n` items of `s`.
pub open spec fn take_up_to<A>(s: Seq<A>, n: int) -> Seq<A> {
    if n < s.len() { s.take(n) } else { s }
}

/// The gaps of an interpretation: every missing required field, then the
/// missing fields among the first `5 - required gaps` recommended fields
/// (none once five required gaps are found).
pub open spec fn interpretation_gaps(
    required: Seq<MinimumRequirementField>,
    recommended: Seq<MinimumRequirementField>,
    interpreted: JsonValue,
    found_in_prompt: Seq<String>,
) -> Seq<GapRecord> {
    let req = requirement_gaps(required, interpreted, found_in_prompt, "required"@);
    let limit = if req.len() >= 5 { 0 } else { 5 - req.len() };
    req + requirement_gaps(take_up_to(recommended, limit), interpreted, found_in_prompt, "recommended"@)
}

proof fn lemma_requirement_gaps_len(
    fields: Seq<MinimumRequirementField>,
    interpreted: JsonValue,
    found_in_prompt: Seq<String>,
    priority: Seq<char>,
)
    ensures
        requirement_gaps(fields, interpreted, found_in_prompt, priority).len() <= fields.len(),
    decreases fields.len(),
{
    if fields.len() > 0 {
        lemma_requirement_gaps_len(fields.drop_last(), interpreted, found_in_prompt, priority);
    }
}

/// Appends the gaps of the missing fields of `fields` to `gaps`.
fn push_requirement_gaps(
    gaps: &mut Vec<ContentGap>,
    fields: &Vec<MinimumRequirementField>,
    limit: usize,
    interpreted: &JsonValue,
    found_in_prompt: &Vec<String>,
    priority: &str,
)
    ensures
        gap_views(final(gaps)@) == gap_views(old(gaps)@) + requirement_gaps(
            take_up_to(fields@, limit as int),
            *interpreted,
            found_in_prompt@,
            priority@,
        ),
{
    let n = if limit < fields.len() { limit } else { fields.len() };
    let ghost start = gap_views(gaps@);
    let ghost fs = take_up_to(fields@, limit as int);
    assert(fs.len() == n);
    let mut i: usize = 0;
    assert(fs.take(0) =~= Seq::<MinimumRequirementField>::empty());
    assert(start + Seq::<GapRecord>::empty() =~= start);
    while i < n
        invariant
            i <= n,
            n <= fields.len(),
            fs == take_up_to(fields@, limit as int),
            fs.len() == n,
            gap_views(gaps@) == start + requirement_gaps(fs.take(i as int), *interpreted, found_in_prompt@, priority@),
        decreases n - i,
    {
        let field = &fields[i];
        assert(fs[i as int] == fields@[i as int]);
        assert(fs.take(i + 1).drop_last() =~= fs.take(i as int));
        let present = is_field_present_in_json(get(interpreted, field.field_id.as_str()));
        let stated = is_listed(found_in_prompt, field.field_id.as_str());
        if !present && !stated {
            let gap = ContentGap {
                field_id: field.field_id.clone(),
                question: build_question_from_requirement(field),
                priority: String::from_str(priority),
                input_type: field.input_type.clone(),
                suggestions: clone_strings(&field.suggestions),
                detected_value: None,
            };
            let ghost before = gaps@;
            gaps.push(gap);
            assert(gap_views(gaps@) =~= gap_views(before).push(requirement_gap(*field, priority@)));
        }
        i = i + 1;
    }
    assert(fs.take(n as int) =~= fs);
}

/// Gaps of an interpretation against the minimum requirements of its
/// content type: each required field that neither the interpretation nor
/// the prompt gives, then such recommended fields among the first ones,
/// so that recommended questions fill up to five in all.
///
/// `found_in_prompt` holds the ids of the fields whose value the prompt
/// already states, as the content standards' prompt detection finds them.
#[verifier::spinoff_prover]
pub fn compute_gaps_from_interpretation(
    required_fields: &Vec<MinimumRequirementField>,
    recommended_fields: &Vec<MinimumRequirementField>,
    interpreted: &JsonValue,
    found_in_prompt: &Vec<String>,
) -> (r: Vec<ContentGap>)
    ensures
        gap_views(r@) == interpretation_gaps(required_fields@, recommended_fields@, *interpreted, found_in_prompt@),
        r.len() <= 5 || r.len() == requirement_gaps(required_fields@, *interpreted, found_in_prompt@, "required"@).len(),
{
    let mut gaps: Vec<ContentGap> = Vec::new();
    assert(gap_views(gaps@) =~= Seq::<GapRecord>::empty());
    assert(take_up_to(required_fields@, required_fields.len() as int) =~= required_fields@);
    push_requirement_gaps(&mut gaps, required_fields, required_fields.len(), interpreted, found_in_prompt, "required");
    assert(Seq::<GapRecord>::empty() + requirement_gaps(required_fields@, *interpreted, found_in_prompt@, "required"@)
        =~= requirement_gaps(required_fields@, *interpreted, found_in_prompt@, "required"@));
    let limit: usize = if gaps.len() >= 5 { 0 } else { 5 - gaps.len() };
    proof {
        reveal_strlit("required");
        reveal_strlit("recommended");
        lemma_requirement_gaps_len(
            take_up_to(recommended_fields@, limit as int),
            *interpreted,
            found_in_prompt@,
            "recommended"@,
        );
    }
    let ghost req_len = gaps@.len();
    assert(gap_views(gaps@).len() == gaps@.len());
    push_requirement_gaps(&mut gaps, recommended_fields, limit, interpreted, found_in_prompt, "recommended");
    assert(gap_views(gaps@).len() == gaps@.len());
    assert(take_up_to(recommended_fields@, limit as int).len() <= limit);
    gaps
}

} // verus!

verus! {

proof fn lemma_no_slide_lines(n: nat)
    ensures
        slide_lines(Seq::<(String, String)>::empty(), n) == Seq::<Seq<char>>::empty(),
    decreases n,
{
    if n > 0 {
        lemma_no_slide_lines((n - 1) as nat);
    }
}

/// Without answers, enriching a prompt only trims it and collapses the
/// punctuation runs `, ,`, `,.` and `..`; a prompt without such runs comes
/// back trimmed.
pub proof fn lemma_enrich_without_answers(raw: Seq<char>)
    ensures
        enriched_body(raw, Seq::empty()) == trim(raw),
        !seq_contains(trim(raw), ", ,"@) && !seq_contains(trim(raw), ",."@) && !seq_contains(trim(raw), ".."@)
            ==> enriched_prompt(raw, Seq::empty()) == trim(raw),
{
    let none = Seq::<(String, String)>::empty();
    lemma_no_slide_lines(20);
    let h = lower_of(trim(raw));
    assert(answer_phrases(h, none) =~= Seq::<Seq<char>>::empty());
    if !seq_contains(trim(raw), ", ,"@) && !seq_contains(trim(raw), ",."@) && !seq_contains(trim(raw), ".."@) {
        crate::text::lemma_replace_all_absent(trim(raw), ", ,"@, ","@);
        crate::text::lemma_replace_all_absent(trim(raw), ",."@, "."@);
        crate::text::lemma_replace_all_absent(trim(raw), ".."@, "."@);
    }
}


/// A field id that enrichment reads: one of the nine named fields, or
/// `slide_<i>` / `slide_<i>_content` for a slide `1..=20`.
pub open spec fn enrich_key(k: Seq<char>) -> bool {
    ||| k == "target_audience"@
    ||| k == "output_type"@
    ||| k == "page_count"@
    ||| k == "slide_count"@
    ||| k == "learning_objectives"@
    ||| k == "difficulty_level"@
    ||| k == "question_count"@
    ||| k == "teaching_method"@
    ||| k == "include_activities"@
    ||| slide_key(k)
}

/// `slide_<i>` or `slide_<i>_content` for a slide `1..=20`.
pub open spec fn slide_key(k: Seq<char>) -> bool {
    exists|i: nat| 1 <= i <= 20 && (k == "slide_"@ + #[trigger] dec(i) || k == "slide_"@ + dec(i) + "_content"@)
}

/// No answered field is one that enrichment reads.
pub open spec fn no_enrich_keys(ans: Seq<(String, String)>) -> bool {
    forall|k: int| 0 <= k < ans.len() ==> !enrich_key(#[trigger] ans[k].0@)
}

proof fn lemma_no_slide_answers(ans: Seq<(String, String)>, n: nat)
    requires
        n <= 20,
        forall|k: int| 0 <= k < ans.len() ==> !slide_key(#[trigger] ans[k].0@),
    ensures
        slide_lines(ans, n) == Seq::<Seq<char>>::empty(),
    decreases n,
{
    if n > 0 {
        lemma_no_slide_answers(ans, (n - 1) as nat);
        let k1 = "slide_"@ + dec(n);
        let k2 = "slide_"@ + dec(n) + "_content"@;
        assert forall|k: int| 0 <= k < ans.len() implies ans[k].0@ != k1 && ans[k].0@ != k2 by {
            assert(!slide_key(ans[k].0@));
        }
        crate::text::lemma_lookup_absent(ans, k1);
        crate::text::lemma_lookup_absent(ans, k2);
    }
}

/// When the trimmed prompt holds no `,` or `.`, the enriched prompt begins
/// with the trimmed prompt; when moreover no answered field is one that
/// enrichment reads, the enriched prompt is the trimmed prompt itself.
pub proof fn lemma_enrich_keeps_prompt(raw: Seq<char>, ans: Seq<(String, String)>)
    requires
        forall|i: int| 0 <= i < trim(raw).len() ==> trim(raw)[i] != ',' && trim(raw)[i] != '.',
    ensures
        seq_starts_with(enriched_prompt(raw, ans), trim(raw)),
        no_enrich_keys(ans) ==> enriched_prompt(raw, ans) == trim(raw),
{
    reveal_strlit(", ,");
    reveal_strlit(",.");
    reveal_strlit("..");
    let base = trim(raw);
    let h = lower_of(base);
    let phrases = answer_phrases(h, ans);
    let lines = slide_lines(ans, 20);
    let r1 = if phrases.len() > 0 { ", "@ + join(phrases, ", "@) } else { Seq::<char>::empty() };
    let r2 = if lines.len() > 0 { ". "@ + "Rincian isi per slide:\n"@ + join(lines, "\n"@) } else { Seq::<char>::empty() };
    let rest = r1 + r2;
    assert(enriched_body(raw, ans) =~= base + rest);
    let x1 = replace_all(rest, ", ,"@, ","@);
    let x2 = replace_all(x1, ",."@, "."@);
    let x3 = replace_all(x2, ".."@, "."@);
    crate::text::lemma_replace_all_prefix(base, rest, ", ,"@, ","@);
    crate::text::lemma_replace_all_prefix(base, x1, ",."@, "."@);
    crate::text::lemma_replace_all_prefix(base, x2, ".."@, "."@);
    assert(enriched_prompt(raw, ans) == base + x3);
    assert((base + x3).subrange(0, base.len() as int) =~= base);
    if no_enrich_keys(ans) {
        assert forall|k: int| 0 <= k < ans.len() implies !slide_key(#[trigger] ans[k].0@) by {
            assert(!enrich_key(ans[k].0@));
        }
        lemma_no_slide_answers(ans, 20);
        assert forall|k: int| 0 <= k < ans.len() implies ans[k].0@ != "target_audience"@ && ans[k].0@ != "output_type"@
            && ans[k].0@ != "page_count"@ && ans[k].0@ != "slide_count"@ && ans[k].0@ != "learning_objectives"@
            && ans[k].0@ != "difficulty_level"@ && ans[k].0@ != "question_count"@ && ans[k].0@ != "teaching_method"@
            && ans[k].0@ != "include_activities"@ by {
            assert(!enrich_key(ans[k].0@));
        }
        crate::text::lemma_lookup_absent(ans, "target_audience"@);
        crate::text::lemma_lookup_absent(ans, "output_type"@);
        crate::text::lemma_lookup_absent(ans, "page_count"@);
        crate::text::lemma_lookup_absent(ans, "slide_count"@);
        crate::text::lemma_lookup_absent(ans, "learning_objectives"@);
        crate::text::lemma_lookup_absent(ans, "difficulty_level"@);
        crate::text::lemma_lookup_absent(ans, "question_count"@);
        crate::text::lemma_lookup_absent(ans, "teaching_method"@);
        crate::text::lemma_lookup_absent(ans, "include_activities"@);
        assert(phrases =~= Seq::<Seq<char>>::empty());
        assert(rest =~= Seq::<char>::empty());
        assert(x3 =~= Seq::<char>::empty());
        assert(base + x3 =~= base);
    }
}

} // verus!

verus! {

/// An ASCII letter or digit.
pub open spec fn is_alnum(c: char) -> bool {
    ('a' <= c && c <= 'z') || ('A' <= c && c <= 'Z') || ('0' <= c && c <= '9')
}

/// An answer value made of ASCII letters, digits, `_` and spaces that holds
/// a letter or digit and neither starts nor ends with a space or `_`.
pub open spec fn plain_answer(v: Seq<char>) -> bool {
    &&& forall|i: int| 0 <= i < v.len() ==> is_alnum(#[trigger] v[i]) || v[i] == '_' || v[i] == ' '
    &&& exists|i: int| 0 <= i < v.len() && is_alnum(#[trigger] v[i])
    &&& v[0] != ' ' && v[0] != '_'
    &&& v.last() != ' ' && v.last() != '_'
}

/// Only the audience and the output format are answered, each with a plain
/// value.
pub open spec fn audience_format_answers(ans: Seq<(String, String)>) -> bool {
    forall|k: int| #![trigger ans[k]] 0 <= k < ans.len() ==> {
        &&& (ans[k].0@ == "target_audience"@ || ans[k].0@ == "output_type"@)
        &&& plain_answer(ans[k].1@)
    }
}

/// Without `,` or `.`.
spec fn stop_free(s: Seq<char>) -> bool {
    forall|i: int| 0 <= i < s.len() ==> #[trigger] s[i] != ',' && s[i] != '.'
}

/// ASCII, without `,` or `.`.
spec fn calm(s: Seq<char>) -> bool {
    forall|i: int| 0 <= i < s.len() ==> (#[trigger] s[i] as u32) < 0x80 && s[i] != ',' && s[i] != '.'
}

/// A `,` at `i` is followed by a character and then by one that is not `,`.
spec fn comma_ok(s: Seq<char>, i: int) -> bool {
    s[i] == ',' ==> i + 2 < s.len() && s[i + 2] != ','
}

/// Without `.`, and no `,` is followed two places later by `,`.
spec fn tidy(s: Seq<char>) -> bool {
    &&& forall|i: int| 0 <= i < s.len() ==> #[trigger] s[i] != '.'
    &&& forall|i: int| 0 <= i < s.len() ==> #[trigger] comma_ok(s, i)
}

proof fn lemma_stop_free_tidy(s: Seq<char>)
    requires
        stop_free(s),
    ensures
        tidy(s),
{
    assert forall|i: int| 0 <= i < s.len() implies #[trigger] comma_ok(s, i) by {
        assert(s[i] != ',');
    }
}

proof fn lemma_tidy_concat(x: Seq<char>, y: Seq<char>)
    requires
        tidy(x),
        tidy(y),
    ensures
        tidy(x + y),
{
    let s = x + y;
    assert forall|i: int| 0 <= i < s.len() implies #[trigger] comma_ok(s, i) by {
        if i < x.len() {
            assert(comma_ok(x, i));
        } else {
            assert(comma_ok(y, i - x.len()));
        }
    }
    assert forall|i: int| 0 <= i < s.len() implies #[trigger] s[i] != '.' by {
        if i >= x.len() {
            assert(s[i] == y[i - x.len()]);
        }
    }
}

proof fn lemma_separated_tidy(p: Seq<char>)
    requires
        calm(p),
        p.len() > 0,
    ensures
        tidy(", "@ + p),
{
    reveal_strlit(", ");
    let s = ", "@ + p;
    assert forall|i: int| 0 <= i < s.len() implies #[trigger] comma_ok(s, i) by {
        if i >= 2 {
            assert(s[i] == p[i - 2]);
        } else if i == 0 {
            assert(s[2] == p[0]);
        }
    }
    assert forall|i: int| 0 <= i < s.len() implies (#[trigger] s[i] as u32) < 0x80 && s[i] != '.' by {
        if i >= 2 {
            assert(s[i] == p[i - 2]);
        }
    }
}

/// A tidy prompt passes the punctuation clean-up untouched.
proof fn lemma_tidy_cleanup(s: Seq<char>)
    requires
        tidy(s),
    ensures
        replace_all(replace_all(replace_all(s, ", ,"@, ","@), ",."@, "."@), ".."@, "."@) == s,
{
    reveal_strlit(", ,");
    reveal_strlit(",.");
    reveal_strlit("..");
    assert forall|j: int| !occurs_at(s, ", ,"@, j) by {
        if occurs_at(s, ", ,"@, j) {
            assert(s.subrange(j, j + 3)[0] == ',');
            assert(s.subrange(j, j + 3)[2] == ',');
            assert(comma_ok(s, j));
        }
    }
    crate::text::lemma_replace_all_absent(s, ", ,"@, ","@);
    assert forall|j: int| !occurs_at(s, ",."@, j) by {
        if occurs_at(s, ",."@, j) {
            assert(s.subrange(j, j + 2)[1] == '.');
            assert(s[j + 1] != '.');
        }
    }
    crate::text::lemma_replace_all_absent(s, ",."@, "."@);
    assert forall|j: int| !occurs_at(s, ".."@, j) by {
        if occurs_at(s, ".."@, j) {
            assert(s.subrange(j, j + 2)[0] == '.');
            assert(s[j] != '.');
        }
    }
    crate::text::lemma_replace_all_absent(s, ".."@, "."@);
}

proof fn lemma_lookup_found(pairs: Seq<(String, String)>, key: Seq<char>)
    ensures
        lookup(pairs, key) matches Some(v) ==> exists|k: int| #![trigger pairs[k]]
            0 <= k < pairs.len() && pairs[k].0@ == key && pairs[k].1@ == v,
    decreases pairs.len(),
{
    if pairs.len() > 0 && pairs[0].0@ != key {
        lemma_lookup_found(pairs.drop_first(), key);
        if lookup(pairs, key) is Some {
            let k = choose|k: int| #![trigger pairs.drop_first()[k]]
                0 <= k < pairs.drop_first().len() && pairs.drop_first()[k].0@ == key
                && pairs.drop_first()[k].1@ == lookup(pairs, key)->0;
            assert(pairs[k + 1] == pairs.drop_first()[k]);
        }
    }
}

/// What a plain audience answer turns into: the phrase text is calm, ends
/// in a letter or digit, and its lowercase is a needle with a word.
proof fn lemma_plain_audience(a: Seq<char>)
    requires
        plain_answer(a),
    ensures
        calm(replace_all(a, "_"@, " "@)),
        replace_all(a, "_"@, " "@).len() > 0,
        is_alnum(replace_all(a, "_"@, " "@).last()),
        lower_of(replace_all(replace_all(a, "_"@, " "@), "_"@, " "@)) == ascii_lower_seq(replace_all(a, "_"@, " "@)),
        has_token(ascii_lower_seq(replace_all(a, "_"@, " "@))),
{
    reveal_strlit("_");
    reveal_strlit(" ");
    assert("_"@ =~= seq!['_']);
    assert(" "@ =~= seq![' ']);
    crate::text::lemma_replace_single(a, '_', ' ');
    let ac = replace_all(a, "_"@, " "@);
    assert(a.len() > 0);
    assert(ac.len() == a.len());
    assert forall|i: int| 0 <= i < ac.len() implies (#[trigger] ac[i] as u32) < 0x80 && ac[i] != ',' && ac[i] != '.' by {
        assert(is_alnum(a[i]) || a[i] == '_' || a[i] == ' ');
    }
    assert(is_alnum(a.last()) || a.last() == '_' || a.last() == ' ');
    assert(ac.last() == a.last());
    assert(!seq_contains(ac, "_"@)) by {
        assert forall|j: int| !occurs_at(ac, "_"@, j) by {
            if occurs_at(ac, "_"@, j) {
                assert(ac.subrange(j, j + 1)[0] == '_');
                assert(is_alnum(a[j]) || a[j] == '_' || a[j] == ' ');
            }
        }
    }
    crate::text::lemma_replace_all_absent(ac, "_"@, " "@);
    assert(all_ascii(ac));
    let n = ascii_lower_seq(ac);
    assert(is_alnum(a[0]) || a[0] == '_' || a[0] == ' ');
    assert(ac[0] == a[0]);
    assert(!crate::text::is_ws(n[0]));
    assert(crate::text::token_start(n, 0));
}

/// What a plain format answer turns into: its uppercase is calm, ends in a
/// letter or digit, and lowercases back to the answer's lowercase.
proof fn lemma_plain_format(o: Seq<char>)
    requires
        plain_answer(o),
    ensures
        upper_of(o) == ascii_upper_seq(o),
        calm(upper_of(o)),
        upper_of(o).len() > 0,
        is_alnum(upper_of(o).last()),
        lower_of(o) == ascii_lower_seq(o),
        ascii_lower_seq(upper_of(o)) == ascii_lower_seq(o),
{
    assert(o.len() > 0);
    assert forall|i: int| 0 <= i < o.len() implies (#[trigger] o[i] as u32) < 0x80 by {
        assert(is_alnum(o[i]) || o[i] == '_' || o[i] == ' ');
    }
    let u = ascii_upper_seq(o);
    assert forall|i: int| 0 <= i < u.len() implies (#[trigger] u[i] as u32) < 0x80 && u[i] != ',' && u[i] != '.' by {
        assert(is_alnum(o[i]) || o[i] == '_' || o[i] == ' ');
        if 'a' <= o[i] && o[i] <= 'z' {
            assert(((o[i] as u32) - 32) as char as u32 == (o[i] as u32) - 32);
        }
    }
    assert(is_alnum(o.last()) || o.last() == '_' || o.last() == ' ');
    if 'a' <= o.last() && o.last() <= 'z' {
        assert(((o.last() as u32) - 32) as char as u32 == (o.last() as u32) - 32);
    }
    assert forall|i: int| 0 <= i < o.len() implies #[trigger] ascii_lower_seq(u)[i] == ascii_lower_seq(o)[i] by {
        crate::text::lemma_lower_of_upper(o[i]);
    }
    assert(ascii_lower_seq(u) =~= ascii_lower_seq(o));
}


proof fn lemma_audience_settles(h1: Seq<char>, h2: Seq<char>, ans: Seq<(String, String)>, a: Seq<char>)
    requires
        lookup(ans, "target_audience"@) == Some(a),
        plain_answer(a),
        seq_contains(h2, h1),
        audience_part(h1, ans).len() == 0 || seq_contains(h2, ascii_lower_seq(replace_all(a, "_"@, " "@))),
    ensures
        audience_part(h2, ans).len() == 0,
{
    lemma_plain_audience(a);
    let ac = replace_all(a, "_"@, " "@);
    let n = lower_of(replace_all(ac, "_"@, " "@));
    if audience_part(h1, ans).len() == 0 {
        assert(mentions_all_words(h1, ac));
        crate::text::lemma_tokens_in_wider(h1, h2, n);
    } else {
        crate::text::lemma_tokens_in_container(h2, n);
    }
    assert(mentions_all_words(h2, ac));
}

proof fn lemma_output_settles(h1: Seq<char>, h2: Seq<char>, ans: Seq<(String, String)>, o: Seq<char>)
    requires
        lookup(ans, "output_type"@) == Some(o),
        plain_answer(o),
        seq_contains(h2, h1),
        output_part(h1, ans).len() == 0 || seq_contains(h2, ascii_lower_seq(o)),
    ensures
        output_part(h2, ans).len() == 0,
{
    lemma_plain_format(o);
    let ol = lower_of(o);
    let listed = ol == "pptx"@ || ol == "pdf"@ || ol == "docx"@;
    if output_part(h1, ans).len() == 0 {
        if listed {
            crate::text::lemma_any_occurs_wider(h1, h2, enrich_format_words(ol));
        } else {
            crate::text::lemma_contains_trans(h2, h1, ol);
        }
    } else {
        if ol == "pptx"@ {
            assert(enrich_format_words(ol)[1] == ol);
        } else if listed {
            assert(enrich_format_words(ol)[0] == ol);
        }
    }
}

proof fn lemma_ascii_concat(x: Seq<char>, y: Seq<char>)
    requires
        all_ascii(x),
        all_ascii(y),
    ensures
        all_ascii(x + y),
{
    assert forall|i: int| 0 <= i < (x + y).len() implies ((x + y)[i] as u32) < 0x80 by {
        if i >= x.len() {
            assert((x + y)[i] == y[i - x.len()]);
        } else {
            assert((x + y)[i] == x[i]);
        }
    }
}

/// The separator and the joined phrases that enrichment appends.
spec fn phrase_tail(phrases: Seq<Seq<char>>) -> Seq<char> {
    if phrases.len() > 0 { ", "@ + join(phrases, ", "@) } else { Seq::empty() }
}

proof fn lemma_tail_facts(phrases: Seq<Seq<char>>)
    requires
        phrases.len() <= 2,
        forall|i: int| 0 <= i < phrases.len() ==> calm(#[trigger] phrases[i]) && phrases[i].len() > 0
            && is_alnum(phrases[i].last()),
    ensures
        ({
            let t = phrase_tail(phrases);
            &&& tidy(t)
            &&& all_ascii(t)
            &&& (t.len() > 0) == (phrases.len() > 0)
            &&& t.len() > 0 ==> t[0] == ',' && is_alnum(t.last())
            &&& forall|i: int| 0 <= i < phrases.len() ==> seq_contains(ascii_lower_seq(t), ascii_lower_seq(#[trigger] phrases[i]))
        }),
{
    reveal_strlit(", ");
    let sep = ", "@;
    assert(all_ascii(sep));
    if phrases.len() == 0 {
        assert(tidy(phrase_tail(phrases)));
    } else if phrases.len() == 1 {
        let p = phrases[0];
        assert(join(phrases, sep) == p);
        let t = sep + p;
        lemma_separated_tidy(p);
        lemma_ascii_concat(sep, p);
        crate::text::lemma_ascii_lower_concat(sep, p);
        crate::text::lemma_contains_middle(ascii_lower_seq(sep), ascii_lower_seq(p), Seq::empty());
        assert(ascii_lower_seq(t) + Seq::<char>::empty() =~= ascii_lower_seq(t));
        assert(t.last() == p.last());
    } else {
        let p = phrases[0];
        let q = phrases[1];
        assert(phrases.drop_last() =~= seq![p]);
        assert(join(seq![p], sep) == p);
        assert(join(phrases, sep) == p + sep + q);
        let t = sep + join(phrases, sep);
        lemma_separated_tidy(p);
        lemma_separated_tidy(q);
        assert(t =~= (sep + p) + (sep + q));
        lemma_tidy_concat(sep + p, sep + q);
        lemma_ascii_concat(sep, p);
        lemma_ascii_concat(sep, q);
        lemma_ascii_concat(sep + p, sep + q);
        let ls = ascii_lower_seq(sep);
        let lp = ascii_lower_seq(p);
        let lq = ascii_lower_seq(q);
        assert(ascii_lower_seq(t) =~= ls + lp + ls + lq);
        crate::text::lemma_contains_middle(ls, lp, ls + lq);
        assert(ls + lp + (ls + lq) =~= ascii_lower_seq(t));
        crate::text::lemma_contains_middle(ls + lp + ls, lq, Seq::empty());
        assert(ls + lp + ls + lq + Seq::<char>::empty() =~= ascii_lower_seq(t));
        assert(t.last() == q.last());
    }
}

/// The conditions of the idempotence of enrichment: the trimmed prompt
/// holds no `,` or `.`, and only plain audience and output-format answers
/// are given.
pub open spec fn idempotence_conditions(raw: Seq<char>, ans: Seq<(String, String)>) -> bool {
    &&& forall|i: int| 0 <= i < trim(raw).len() ==> trim(raw)[i] != ',' && trim(raw)[i] != '.'
    &&& audience_format_answers(ans)
}

/// What one enrichment under the idempotence conditions gives: the trimmed
/// prompt followed by an ASCII part that starts with a comma, already
/// trimmed; and when its lowercase is the lowercase of the trimmed prompt
/// followed by that of the ASCII part, enriching it again changes nothing.
#[verifier::rlimit(40)]
proof fn lemma_enrich_round(raw: Seq<char>, ans: Seq<(String, String)>)
    requires
        idempotence_conditions(raw, ans),
    ensures
        ({
            let e = enriched_prompt(raw, ans);
            let base = trim(raw);
            let t = e.skip(base.len() as int);
            &&& base.len() <= e.len()
            &&& e == base + t
            &&& all_ascii(t)
            &&& t.len() > 0 ==> t[0] == ','
            &&& trim(e) == e
            &&& lower_of(e) == lower_of(base) + ascii_lower_seq(t) ==> enriched_prompt(e, ans) == e
        }),
{
    reveal_strlit("target_audience");
    reveal_strlit("output_type");
    reveal_strlit("page_count");
    reveal_strlit("slide_count");
    reveal_strlit("learning_objectives");
    reveal_strlit("difficulty_level");
    reveal_strlit("question_count");
    reveal_strlit("teaching_method");
    reveal_strlit("include_activities");
    reveal_strlit("slide_");
    reveal_strlit("untuk jenjang ");
    reveal_strlit("dalam format ");
    let base = trim(raw);
    crate::text::lemma_trim_shape(raw);
    assert(stop_free(base));
    // Only the audience and format keys are answered.
    assert forall|k: int| 0 <= k < ans.len() implies {
        &&& ans[k].0@ != "page_count"@ && ans[k].0@ != "slide_count"@
        &&& ans[k].0@ != "learning_objectives"@ && ans[k].0@ != "difficulty_level"@
        &&& ans[k].0@ != "question_count"@ && ans[k].0@ != "teaching_method"@
        &&& ans[k].0@ != "include_activities"@
        &&& !slide_key(#[trigger] ans[k].0@)
    } by {
        let key = ans[k].0@;
        assert(key == "target_audience"@ || key == "output_type"@);
        assert(key[0] == 't' || key[0] == 'o');
        assert("page_count"@[0] == 'p');
        assert("slide_count"@[0] == 's');
        assert("learning_objectives"@[0] == 'l');
        assert("difficulty_level"@[0] == 'd');
        assert("question_count"@[0] == 'q');
        assert(key == "target_audience"@ ==> key[1] == 'a');
        assert("teaching_method"@[1] == 'e');
        assert("include_activities"@[0] == 'i');
        if slide_key(key) {
            let j = choose|j: nat| 1 <= j <= 20 && (key == "slide_"@ + #[trigger] dec(j) || key == "slide_"@ + dec(j) + "_content"@);
            assert(("slide_"@ + dec(j))[0] == 's');
            assert(("slide_"@ + dec(j) + "_content"@)[0] == 's');
        }
    }
    crate::text::lemma_lookup_absent(ans, "page_count"@);
    crate::text::lemma_lookup_absent(ans, "slide_count"@);
    crate::text::lemma_lookup_absent(ans, "learning_objectives"@);
    crate::text::lemma_lookup_absent(ans, "difficulty_level"@);
    crate::text::lemma_lookup_absent(ans, "question_count"@);
    crate::text::lemma_lookup_absent(ans, "teaching_method"@);
    crate::text::lemma_lookup_absent(ans, "include_activities"@);
    lemma_no_slide_answers(ans, 20);
    lemma_lookup_found(ans, "target_audience"@);
    lemma_lookup_found(ans, "output_type"@);

    // First enrichment.
    let h1 = lower_of(base);
    let a1 = audience_part(h1, ans);
    let o1 = output_part(h1, ans);
    let phrases1 = answer_phrases(h1, ans);
    assert(phrases1 =~= a1 + o1);
    let pa = match lookup(ans, "target_audience"@) {
        Some(a) => "untuk jenjang "@ + replace_all(a, "_"@, " "@),
        None => Seq::<char>::empty(),
    };
    let po = match lookup(ans, "output_type"@) {
        Some(o) => "dalam format "@ + upper_of(o),
        None => Seq::<char>::empty(),
    };
    match lookup(ans, "target_audience"@) {
        Some(a) => {
            lemma_plain_audience(a);
            assert forall|i: int| 0 <= i < pa.len() implies (#[trigger] pa[i] as u32) < 0x80 && pa[i] != ',' && pa[i] != '.' by {
                if i >= 14 {
                    assert(pa[i] == replace_all(a, "_"@, " "@)[i - 14]);
                }
            }
            assert(pa.last() == replace_all(a, "_"@, " "@).last());
        },
        None => {},
    }
    match lookup(ans, "output_type"@) {
        Some(o) => {
            lemma_plain_format(o);
            assert forall|i: int| 0 <= i < po.len() implies (#[trigger] po[i] as u32) < 0x80 && po[i] != ',' && po[i] != '.' by {
                if i >= 13 {
                    assert(po[i] == upper_of(o)[i - 13]);
                }
            }
            assert(po.last() == upper_of(o).last());
        },
        None => {},
    }
    assert(a1.len() > 0 ==> a1 == seq![pa]);
    assert(o1.len() > 0 ==> o1 == seq![po]);
    assert forall|i: int| 0 <= i < phrases1.len() implies calm(#[trigger] phrases1[i]) && phrases1[i].len() > 0
        && is_alnum(phrases1[i].last()) by {
        if i < a1.len() {
            assert(phrases1[i] == pa);
        } else {
            assert(phrases1[i] == po);
        }
    }
    lemma_tail_facts(phrases1);
    let t = phrase_tail(phrases1);
    let body1 = base + t;
    assert(enriched_body(raw, ans) =~= body1);
    lemma_stop_free_tidy(base);
    lemma_tidy_concat(base, t);
    lemma_tidy_cleanup(body1);
    assert(enriched_prompt(raw, ans) == body1);
    assert(body1.skip(base.len() as int) =~= t);

    // Second enrichment, of `body1`.
    if body1.len() > 0 {
        if base.len() > 0 {
            assert(body1[0] == base[0]);
        } else {
            assert(body1[0] == t[0]);
        }
        if t.len() > 0 {
            assert(body1.last() == t.last());
        } else {
            assert(body1.last() == base.last());
        }
        assert(!crate::text::is_ws(body1[0]));
        assert(!crate::text::is_ws(body1.last()));
    }
    assert(crate::text::trim_start(body1) == body1);
    assert(crate::text::trim_end(body1) == body1);
    assert(trim(body1) == body1);
    if lower_of(body1) == lower_of(base) + ascii_lower_seq(t) {
    let h2 = lower_of(body1);
    crate::text::lemma_contains_middle(h1, ascii_lower_seq(t), Seq::empty());
    assert(h1 + ascii_lower_seq(t) + Seq::<char>::empty() =~= h2);
    crate::text::lemma_contains_middle(h1, ascii_lower_seq(t), Seq::empty());
    assert(seq_contains(h2, ascii_lower_seq(t)));
    match lookup(ans, "target_audience"@) {
        Some(a) => {
            if a1.len() > 0 {
                assert(phrases1[0] == pa);
                crate::text::lemma_contains_trans(h2, ascii_lower_seq(t), ascii_lower_seq(pa));
                crate::text::lemma_ascii_lower_concat("untuk jenjang "@, replace_all(a, "_"@, " "@));
                crate::text::lemma_contains_middle(ascii_lower_seq("untuk jenjang "@), ascii_lower_seq(replace_all(a, "_"@, " "@)), Seq::empty());
                assert(ascii_lower_seq(pa) + Seq::<char>::empty() =~= ascii_lower_seq(pa));
                crate::text::lemma_contains_trans(h2, ascii_lower_seq(pa), ascii_lower_seq(replace_all(a, "_"@, " "@)));
            }
            lemma_audience_settles(h1, h2, ans, a);
        },
        None => {},
    }
    match lookup(ans, "output_type"@) {
        Some(o) => {
            if o1.len() > 0 {
                assert(phrases1[a1.len() as int] == po);
                crate::text::lemma_contains_trans(h2, ascii_lower_seq(t), ascii_lower_seq(po));
                crate::text::lemma_ascii_lower_concat("dalam format "@, upper_of(o));
                crate::text::lemma_contains_middle(ascii_lower_seq("dalam format "@), ascii_lower_seq(upper_of(o)), Seq::empty());
                assert(ascii_lower_seq(po) + Seq::<char>::empty() =~= ascii_lower_seq(po));
                crate::text::lemma_contains_trans(h2, ascii_lower_seq(po), ascii_lower_seq(o));
            }
            lemma_output_settles(h1, h2, ans, o);
        },
        None => {},
    }
    assert(answer_phrases(h2, ans) =~= Seq::<Seq<char>>::empty());
    assert(enriched_body(body1, ans) == body1);
    }
}


/// The lowercase of a prompt that is a trimmed prompt followed by an ASCII
/// part, given as the lowercase of the two parts when that part is not
/// empty.
proof fn lemma_lower_split(e: Seq<char>, base: Seq<char>, t: Seq<char>)
    requires
        e == base + t,
        all_ascii(t),
        t.len() > 0 ==> lowercase_of(e) == lowercase_of(base) + ascii_lower_seq(t),
    ensures
        lower_of(e) == lower_of(base) + ascii_lower_seq(t),
{
    crate::text::lemma_ascii_lower_concat(base, t);
    if t.len() == 0 {
        assert(e =~= base);
        assert(ascii_lower_seq(t) =~= Seq::<char>::empty());
        assert(lower_of(base) + ascii_lower_seq(t) =~= lower_of(base));
    } else if all_ascii(e) {
        assert forall|i: int| 0 <= i < base.len() implies (#[trigger] base[i] as u32) < 0x80 by {
            assert(base[i] == e[i]);
        }
    } else {
        if all_ascii(base) {
            lemma_ascii_concat(base, t);
        }
    }
}

/// Enriching a second time, with the same plain audience and output-format
/// answers, a prompt whose trimmed form holds no `,` or `.` adds nothing,
/// for an ASCII prompt; `enrich_prompt` states it for every prompt.
pub proof fn lemma_enrich_idempotent(raw: Seq<char>, ans: Seq<(String, String)>)
    requires
        all_ascii(raw),
        idempotence_conditions(raw, ans),
    ensures
        enriched_prompt(enriched_prompt(raw, ans), ans) == enriched_prompt(raw, ans),
{
    lemma_enrich_round(raw, ans);
    let base = trim(raw);
    let e = enriched_prompt(raw, ans);
    let t = e.skip(base.len() as int);
    let i0 = crate::text::lemma_trim_shape(raw);
    assert forall|i: int| 0 <= i < base.len() implies (#[trigger] base[i] as u32) < 0x80 by {
        assert(base[i] == raw[i0 + i]);
    }
    lemma_ascii_concat(base, t);
    crate::text::lemma_ascii_lower_concat(base, t);
    assert(lower_of(e) == lower_of(base) + ascii_lower_seq(t));
}


/// A page-count answer of `short`, `medium` or `long`, given alone, on a
/// prompt that holds no `,` or `.` and states no quantity, turns the prompt
/// into the trimmed prompt followed by `, sebanyak 2-3 halaman`,
/// `, sebanyak 5-7 halaman` or `, sebanyak 10+ halaman` respectively.
pub proof fn lemma_page_count_enrichment(raw: Seq<char>, ans: Seq<(String, String)>)
    requires
        ans.len() > 0,
        forall|k: int| 0 <= k < ans.len() ==> (#[trigger] ans[k]).0@ == "page_count"@,
        forall|i: int| 0 <= i < trim(raw).len() ==> trim(raw)[i] != ',' && trim(raw)[i] != '.',
        !mentions_quantity(lower_of(trim(raw)), page_units()),
    ensures
        ans[0].1@ == "short"@ ==> enriched_prompt(raw, ans) == trim(raw) + ", sebanyak 2-3 halaman"@,
        ans[0].1@ == "medium"@ ==> enriched_prompt(raw, ans) == trim(raw) + ", sebanyak 5-7 halaman"@,
        ans[0].1@ == "long"@ ==> enriched_prompt(raw, ans) == trim(raw) + ", sebanyak 10+ halaman"@,
{
    reveal_strlit("target_audience");
    reveal_strlit("output_type");
    reveal_strlit("page_count");
    reveal_strlit("slide_count");
    reveal_strlit("learning_objectives");
    reveal_strlit("difficulty_level");
    reveal_strlit("question_count");
    reveal_strlit("teaching_method");
    reveal_strlit("include_activities");
    reveal_strlit("slide_");
    reveal_strlit("short");
    reveal_strlit("medium");
    reveal_strlit("long");
    reveal_strlit("sebanyak ");
    reveal_strlit("2-3 halaman");
    reveal_strlit("5-7 halaman");
    reveal_strlit("10+ halaman");
    reveal_strlit(", sebanyak 2-3 halaman");
    reveal_strlit(", sebanyak 5-7 halaman");
    reveal_strlit(", sebanyak 10+ halaman");
    reveal_strlit(", ");
    let base = trim(raw);
    crate::text::lemma_trim_shape(raw);
    assert(stop_free(base));
    assert forall|k: int| 0 <= k < ans.len() implies {
        &&& ans[k].0@ != "target_audience"@ && ans[k].0@ != "output_type"@
        &&& ans[k].0@ != "slide_count"@
        &&& ans[k].0@ != "learning_objectives"@ && ans[k].0@ != "difficulty_level"@
        &&& ans[k].0@ != "question_count"@ && ans[k].0@ != "teaching_method"@
        &&& ans[k].0@ != "include_activities"@
        &&& !slide_key(#[trigger] ans[k].0@)
    } by {
        let key = ans[k].0@;
        assert(key == "page_count"@);
        assert(key[0] == 'p');
        assert("target_audience"@[0] == 't');
        assert("output_type"@[0] == 'o');
        assert("slide_count"@[0] == 's');
        assert("learning_objectives"@[0] == 'l');
        assert("difficulty_level"@[0] == 'd');
        assert("question_count"@[0] == 'q');
        assert("teaching_method"@[0] == 't');
        assert("include_activities"@[0] == 'i');
        if slide_key(key) {
            let j = choose|j: nat| 1 <= j <= 20 && (key == "slide_"@ + #[trigger] dec(j) || key == "slide_"@ + dec(j) + "_content"@);
            assert(("slide_"@ + dec(j))[0] == 's');
            assert(("slide_"@ + dec(j) + "_content"@)[0] == 's');
        }
    }
    crate::text::lemma_lookup_absent(ans, "target_audience"@);
    crate::text::lemma_lookup_absent(ans, "output_type"@);
    crate::text::lemma_lookup_absent(ans, "slide_count"@);
    crate::text::lemma_lookup_absent(ans, "learning_objectives"@);
    crate::text::lemma_lookup_absent(ans, "difficulty_level"@);
    crate::text::lemma_lookup_absent(ans, "question_count"@);
    crate::text::lemma_lookup_absent(ans, "teaching_method"@);
    crate::text::lemma_lookup_absent(ans, "include_activities"@);
    lemma_no_slide_answers(ans, 20);
    assert(ans[0].0@ == "page_count"@);
    assert(lookup(ans, "page_count"@) == Some(ans[0].1@));
    let p = ans[0].1@;
    let h = lower_of(base);
    let phrase = "sebanyak "@ + page_label(p);
    assert(answer_phrases(h, ans) =~= seq![phrase]);
    if p == "short"@ || p == "medium"@ || p == "long"@ {
        assert("short"@ != "medium"@ && "short"@ != "long"@ && "medium"@ != "long"@) by {
            assert("short"@.len() != "medium"@.len() && "long"@.len() != "medium"@.len());
            assert("short"@[0] != "long"@[0]);
        }
        assert(calm(phrase));
        let phrases = seq![phrase];
        assert(join(phrases, ", "@) == phrase);
        let t = ", "@ + phrase;
        lemma_separated_tidy(phrase);
        lemma_stop_free_tidy(base);
        lemma_tidy_concat(base, t);
        assert(enriched_body(raw, ans) =~= base + t);
        lemma_tidy_cleanup(base + t);
        assert(p == "short"@ ==> t =~= ", sebanyak 2-3 halaman"@);
        assert(p == "medium"@ ==> t =~= ", sebanyak 5-7 halaman"@);
        assert(p == "long"@ ==> t =~= ", sebanyak 10+ halaman"@);
    }
}

} // verus!
