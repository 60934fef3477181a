//! What the setup of the object store decides: what is still to be made,
//! and what to write down of it. Running the store's tools and touching
//! files is left to the caller.

use base64::engine::general_purpose::STANDARD;
use base64::Engine;
use vstd::prelude::*;
use vstd::string::StringExecFns;
use crate::text::{
    chars_of, contains, copy_range, find_from, first_index, has_substring, lemma_first_index,
    lines, lines_of, matches_at, starts_with, string_of, trim, trimmed,
};

verus! {

/// Whether some line of `text` holds `pattern`.
pub open spec fn some_line_contains(text: Seq<char>, pattern: Seq<char>) -> bool {
    exists|i: int| 0 <= i < lines(text).len() && contains(#[trigger] lines(text)[i], pattern)
}

/// Whether some line of `text` holds `pattern`.
pub fn line_mentions(text: &str, pattern: &str) -> (r: bool)
    ensures
        r == some_line_contains(text@, pattern@),
{
    let all = lines_of(&chars_of(text));
    let wanted = chars_of(pattern);
    let mut i: usize = 0;
    while i < all.len()
        invariant
            i <= all.len(),
            all@.len() == lines(text@).len(),
            forall|j: int| 0 <= j < all@.len() ==> all@[j]@ == lines(text@)[j],
            forall|j: int| 0 <= j < i ==> !contains(#[trigger] lines(text@)[j], wanted@),
            wanted@ == pattern@,
        decreases all.len() - i,
    {
        if has_substring(&all[i], &wanted) {
            assert(contains(lines(text@)[i as int], pattern@));
            return true;
        }
        i = i + 1;
    }
    false
}

/// Whether the store still lacks one of the two buckets, `beep` and
/// `test`: whether the listing `bucket_list` names one of them in no
/// line.
pub open spec fn lacks_a_bucket(bucket_list: Seq<char>) -> bool {
    !some_line_contains(bucket_list, "beep"@) || !some_line_contains(bucket_list, "test"@)
}

/// Whether there is anything to set up, going by the store's listing of
/// its buckets.
pub fn check_if_need_to_setup(bucket_list: &str) -> (r: bool)
    ensures
        r == lacks_a_bucket(bucket_list@),
{
    !line_mentions(bucket_list, "beep") || !line_mentions(bucket_list, "test")
}

/// The buckets to create, going by the store's listing of its buckets:
/// `beep` and `test`, in this order, each unless a line of the listing
/// names it.
pub open spec fn buckets_to_create(bucket_list: Seq<char>) -> Seq<Seq<char>> {
    (if some_line_contains(bucket_list, "beep"@) {
        Seq::<Seq<char>>::empty()
    } else {
        seq!["beep"@]
    }) + (if some_line_contains(bucket_list, "test"@) {
        Seq::<Seq<char>>::empty()
    } else {
        seq!["test"@]
    })
}

/// The buckets to create, going by the store's listing of its buckets.
pub fn create_buckets(bucket_list: &str) -> (r: Vec<&'static str>)
    ensures
        r@.len() == buckets_to_create(bucket_list@).len(),
        forall|i: int| 0 <= i < r@.len() ==> r@[i]@ == buckets_to_create(bucket_list@)[i],
{
    let mut out: Vec<&'static str> = Vec::new();
    if !line_mentions(bucket_list, "beep") {
        out.push("beep");
    }
    if !line_mentions(bucket_list, "test") {
        out.push("test");
    }
    out
}

/// The name of the key that administers `bucket`.
pub fn admin_key_name(bucket: &str) -> (r: String)
    ensures
        r@ == bucket@ + "_admin"@,
{
    bucket.to_owned().concat("_admin")
}

/// The environment variables that hold the key of `bucket`: that of its
/// identifier, then that of its secret. `None` for a bucket whose key is
/// kept nowhere.
pub fn key_variables(bucket: &str) -> (r: Option<(&'static str, &'static str)>)
    ensures
        bucket@ == "beep"@ ==> (r matches Some(v) && v.0@ == "KEY_ID"@ && v.1@
            == "SECRET_KEY"@),
        bucket@ != "beep"@ && bucket@ == "test"@ ==> (r matches Some(v) && v.0@
            == "TEST_KEY_ID"@ && v.1@ == "TEST_SECRET_KEY"@),
        bucket@ != "beep"@ && bucket@ != "test"@ ==> r is None,
{
    if crate::text::str_eq(bucket, "beep") {
        Some(("KEY_ID", "SECRET_KEY"))
    } else if crate::text::str_eq(bucket, "test") {
        Some(("TEST_KEY_ID", "TEST_SECRET_KEY"))
    } else {
        None
    }
}

/// Whether the environment file `content` lacks one of the settings that
/// the server cannot do without.
pub open spec fn lacks_a_setting(content: Seq<char>) -> bool {
    ||| !contains(content, "ORIGINS"@)
    ||| !contains(content, "PORT"@)
    ||| !contains(content, "OTEL_EXPORTER_OTLP_ENDPOINT"@)
    ||| !contains(content, "S3_ENDPOINT"@)
    ||| !contains(content, "BASE_URL"@)
}

/// Whether an environment file that holds `content` has to be written
/// anew.
pub fn should_init_env_file(content: &str) -> (r: bool)
    ensures
        r == lacks_a_setting(content@),
{
    let text = chars_of(content);
    !has_substring(&text, &chars_of("ORIGINS")) || !has_substring(&text, &chars_of("PORT"))
        || !has_substring(&text, &chars_of("OTEL_EXPORTER_OTLP_ENDPOINT")) || !has_substring(
        &text,
        &chars_of("S3_ENDPOINT"),
    ) || !has_substring(&text, &chars_of("BASE_URL"))
}

/// The line that sets `key` to `value`.
pub open spec fn env_line(key: Seq<char>, value: Seq<char>) -> Seq<char> {
    key + seq!['='] + value + seq!['\n']
}

/// Whether `line` sets `key`.
pub open spec fn sets(line: Seq<char>, key: Seq<char>) -> bool {
    starts_with(line, key + seq!['='])
}

/// The lines `all`, each ended by a line feed, with every line that sets
/// `key` replaced by one that sets it to `value`.
pub open spec fn rewritten(all: Seq<Seq<char>>, key: Seq<char>, value: Seq<char>) -> Seq<char>
    decreases all.len(),
{
    if all.len() == 0 {
        Seq::empty()
    } else {
        rewritten(all.drop_last(), key, value) + (if sets(all.last(), key) {
            env_line(key, value)
        } else {
            all.last() + seq!['\n']
        })
    }
}

/// Whether one of the lines `all` sets `key`.
pub open spec fn some_line_sets(all: Seq<Seq<char>>, key: Seq<char>) -> bool {
    exists|i: int| 0 <= i < all.len() && sets(#[trigger] all[i], key)
}

/// The environment file `content` with `key` set to `value`: every line
/// that sets `key` is replaced, and a line is added at the end where none
/// does.
pub open spec fn with_setting(content: Seq<char>, key: Seq<char>, value: Seq<char>) -> Seq<
    char,
> {
    rewritten(lines(content), key, value) + (if some_line_sets(lines(content), key) {
        Seq::empty()
    } else {
        env_line(key, value)
    })
}

/// Appends `from` to `to`.
fn extend(to: &mut Vec<char>, from: &Vec<char>)
    ensures
        final(to)@ == old(to)@ + from@,
{
    let mut i: usize = 0;
    while i < from.len()
        invariant
            i <= from.len(),
            to@ == old(to)@ + from@.take(i as int),
        decreases from.len() - i,
    {
        to.push(from[i]);
        i = i + 1;
    }
}

/// The environment file `content` with `key` set to `value`.
pub fn update_env_var(content: &str, key: &str, value: &str) -> (r: String)
    ensures
        r@ == with_setting(content@, key@, value@),
{
    let all = lines_of(&chars_of(content));
    let mut prefix = chars_of(key);
    prefix.push('=');
    let mut setting = chars_of(key);
    setting.push('=');
    extend(&mut setting, &chars_of(value));
    setting.push('\n');
    let mut out: Vec<char> = Vec::new();
    let mut found = false;
    let mut i: usize = 0;
    let ghost spec_lines = lines(content@);
    while i < all.len()
        invariant
            i <= all.len(),
            spec_lines == lines(content@),
            all@.len() == spec_lines.len(),
            forall|j: int| 0 <= j < all@.len() ==> all@[j]@ == spec_lines[j],
            setting@ == env_line(key@, value@),
            prefix@ == key@ + seq!['='],
            out@ == rewritten(spec_lines.take(i as int), key@, value@),
            found == some_line_sets(spec_lines.take(i as int), key@),
        decreases all.len() - i,
    {
        let ghost before = spec_lines.take(i as int);
        let ghost now = spec_lines.take(i + 1);
        proof {
            assert(now.drop_last() =~= before);
        }
        if matches_at(&all[i], &prefix, 0) {
            extend(&mut out, &setting);
            found = true;
        } else {
            extend(&mut out, &all[i]);
            out.push('\n');
            proof {
                assert(out@ =~= rewritten(before, key@, value@) + (spec_lines[i as int]
                    + seq!['\n']));
                if some_line_sets(now, key@) {
                    let j = choose|j: int| 0 <= j < now.len() && sets(#[trigger] now[j], key@);
                    assert(before[j] == now[j]);
                }
                if some_line_sets(before, key@) {
                    let j = choose|j: int|
                        0 <= j < before.len() && sets(#[trigger] before[j], key@);
                    assert(now[j] == before[j]);
                }
            }
        }
        i = i + 1;
    }
    proof {
        assert(spec_lines.take(i as int) =~= spec_lines);
    }
    if !found {
        extend(&mut out, &setting);
    }
    string_of(&out)
}

/// What stands in `line` between its first `separator` and the next one,
/// or the end. `None` where `line` has no `separator`.
pub open spec fn second_piece(line: Seq<char>, separator: char) -> Option<Seq<char>> {
    let k = first_index(line, separator);
    if k >= line.len() {
        None
    } else {
        let rest = line.skip(k + 1);
        Some(rest.take(first_index(rest, separator)))
    }
}

/// `s` without its carriage returns and line feeds and, where
/// `spaces_too`, without its spaces.
pub open spec fn squeezed(s: Seq<char>, spaces_too: bool) -> Seq<char>
    decreases s.len(),
{
    if s.len() == 0 {
        s
    } else {
        let c = s.last();
        if c == '\r' || c == '\n' || (spaces_too && c == ' ') {
            squeezed(s.drop_last(), spaces_too)
        } else {
            squeezed(s.drop_last(), spaces_too).push(c)
        }
    }
}

/// `v` without its carriage returns and line feeds and, where
/// `spaces_too`, without its spaces.
pub fn squeeze(v: &Vec<char>, spaces_too: bool) -> (r: Vec<char>)
    ensures
        r@ == squeezed(v@, spaces_too),
{
    let mut out: Vec<char> = Vec::new();
    let mut i: usize = 0;
    while i < v.len()
        invariant
            i <= v.len(),
            out@ == squeezed(v@.take(i as int), spaces_too),
        decreases v.len() - i,
    {
        let c = v[i];
        proof {
            let t = v@.take(i + 1);
            assert(t.drop_last() =~= v@.take(i as int));
        }
        if !(c == '\r' || c == '\n' || (spaces_too && c == ' ')) {
            out.push(c);
        }
        i = i + 1;
    }
    proof {
        assert(v@.take(i as int) =~= v@);
    }
    out
}

/// The value that the lines `all` give for `key`: in the first line that
/// holds `key` and a colon, what stands after the colon, up to the next
/// one, without the white space around it and without any space, carriage
/// return or line feed in it. Empty where there is no such line.
pub open spec fn value_in(all: Seq<Seq<char>>, key: Seq<char>) -> Seq<char>
    decreases all.len(),
{
    if all.len() == 0 {
        Seq::empty()
    } else if contains(all[0], key) && second_piece(all[0], ':') is Some {
        squeezed(trim(second_piece(all[0], ':')->0), true)
    } else {
        value_in(all.skip(1), key)
    }
}

/// The value that a tool of the store reports for `key` in its output
/// `text`.
pub fn extract_value(text: &str, key: &str) -> (r: String)
    ensures
        r@ == value_in(lines(text@), key@),
{
    let all = lines_of(&chars_of(text));
    let wanted = chars_of(key);
    let ghost spec_lines = lines(text@);
    let mut i: usize = 0;
    proof {
        assert(spec_lines.skip(0) =~= spec_lines);
    }
    while i < all.len()
        invariant
            i <= all.len(),
            spec_lines == lines(text@),
            all@.len() == spec_lines.len(),
            forall|j: int| 0 <= j < all@.len() ==> all@[j]@ == spec_lines[j],
            value_in(spec_lines, key@) == value_in(spec_lines.skip(i as int), key@),
            wanted@ == key@,
        decreases all.len() - i,
    {
        let line = &all[i];
        proof {
            assert(spec_lines.skip(i as int).skip(1) =~= spec_lines.skip(i + 1));
            assert(line@.skip(0) =~= line@);
        }
        if has_substring(line, &wanted) {
            let colon = find_from(line, 0, ':');
            if colon < line.len() {
                let next = find_from(line, colon + 1, ':');
                let piece = copy_range(line, colon + 1, next);
                proof {
                    let rest = line@.skip(colon + 1);
                    lemma_first_index(rest, ':');
                    assert(line@.subrange(colon + 1, next as int) =~= rest.take(
                        first_index(rest, ':'),
                    ));
                }
                return string_of(&squeeze(&trimmed(&piece), true));
            }
        }
        i = i + 1;
    }
    String::new()
}

/// The identifier of the node that the store reports as `output`: what
/// stands before the first `@`, without the white space around it and
/// without any carriage return or line feed in it.
pub open spec fn node_id_in(output: Seq<char>) -> Seq<char> {
    squeezed(trim(output.take(first_index(output, '@'))), false)
}

/// The identifier of the node that the store reports as `output`.
pub fn node_id(output: &str) -> (r: String)
    ensures
        r@ == node_id_in(output@),
{
    let text = chars_of(output);
    proof {
        assert(text@.skip(0) =~= text@);
    }
    let at = find_from(&text, 0, '@');
    let head = copy_range(&text, 0, at);
    string_of(&squeeze(&trimmed(&head), false))
}

/// Whether the store has no layout yet, going by what it reports of its
/// layout.
pub fn is_initial_layout(layout_output: &str) -> (r: bool)
    ensures
        r == some_line_contains(layout_output@, "Current cluster layout version: 0"@),
{
    line_mentions(layout_output, "Current cluster layout version: 0")
}

/// How an attempt to reach the store ended.
#[derive(Debug, Clone, Copy, PartialEq, Eq, Structural)]
pub enum Probe {
    /// The store's own tool did not answer.
    Down,
    /// The tool answered, the store's endpoint did not.
    NotServing,
    /// Both answered.
    Up,
}

/// What to do after an attempt to reach the store.
#[derive(Debug, Clone, Copy, PartialEq, Eq, Structural)]
pub enum Step {
    /// The store is there: go on with the setup.
    Proceed,
    /// Wait a second and try again.
    Retry,
    /// Give up: the store did not come up in time.
    GiveUp,
}

/// How many times the store is tried before the setup gives up.
pub const MAX_RETRIES: u32 = 30;

/// What to do after the attempt number `attempt`, counted from one, has
/// ended as `probe`.
pub open spec fn step_after(attempt: u32, probe: Probe) -> Step {
    if probe == Probe::Up {
        Step::Proceed
    } else if attempt < MAX_RETRIES {
        Step::Retry
    } else {
        Step::GiveUp
    }
}

/// What to do after the attempt number `attempt`, counted from one, has
/// ended as `probe`.
pub fn wait_until_s3_up(attempt: u32, probe: Probe) -> (r: Step)
    ensures
        r == step_after(attempt, probe),
{
    match probe {
        Probe::Up => Step::Proceed,
        _ => if attempt < MAX_RETRIES {
            Step::Retry
        } else {
            Step::GiveUp
        },
    }
}

/// `data` in standard base64 with padding.
pub uninterp spec fn base64_standard(data: Seq<u8>) -> Seq<char>;

/// `Engine::encode` of `base64::engine::general_purpose::STANDARD`: the
/// encoding of `data` in the standard alphabet, padded with `=` to a
/// multiple of four characters. The length that is asked of `data` keeps
/// the encoded length within `usize`.
#[verifier::external_body]
fn base64_standard_encode(data: &[u8]) -> (r: String)
    requires
        data@.len() <= usize::MAX / 2,
    ensures
        r@ == base64_standard(data@),
{
    STANDARD.encode(data)
}

/// How many random bytes make a signing key.
pub const SIGNING_KEY_BYTES: usize = 20;

/// The signing key made of the random bytes `entropy`: their encoding in
/// standard base64. `None` where there are more or fewer than twenty.
pub fn setup_signing_key(entropy: &[u8]) -> (r: Option<String>)
    ensures
        entropy@.len() == SIGNING_KEY_BYTES ==> (r matches Some(k) && k@ == base64_standard(
            entropy@,
        )),
        entropy@.len() != SIGNING_KEY_BYTES ==> r is None,
{
    if entropy.len() != SIGNING_KEY_BYTES {
        return None;
    }
    Some(base64_standard_encode(entropy))
}

} // verus!
