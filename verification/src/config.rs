//! Configuration lookup.
//!
//! The configuration is plain text, one `KEY=value` assignment per line, with
//! no quoting or escaping. A lookup scans the lines in order and takes the
//! first line that begins with `KEY=`; the rest of that line, trimmed of
//! surrounding whitespace, is the value. Lines that match no recognized key
//! are ignored, and a missing key is not an error: every lookup resolves to a
//! default or to "not present".

use vstd::prelude::*;

use crate::text::{spec_trim, trim};

verus! {

/// The index of the first `'\n'` of `s` at or after `i`, or `s.len()` if no
/// newline follows: where the line that position `i` lies on ends.
pub open spec fn line_end_from(s: Seq<char>, i: int) -> int
    decreases s.len() - i when 0 <= i <= s.len()
{
    if i >= s.len() {
        s.len() as int
    } else if s[i] == '\n' {
        i
    } else {
        line_end_from(s, i + 1)
    }
}

proof fn lemma_line_end_from(s: Seq<char>, i: int)
    requires
        0 <= i <= s.len(),
    ensures
        i <= line_end_from(s, i) <= s.len(),
        forall|k: int| i <= k < line_end_from(s, i) ==> s[k] != '\n',
        line_end_from(s, i) < s.len() ==> s[line_end_from(s, i)] == '\n',
    decreases s.len() - i,
{
    if i < s.len() && s[i] != '\n' {
        lemma_line_end_from(s, i + 1);
    }
}

/// The raw (untrimmed) value `key` resolves to in the configuration text
/// `s`, looking only at lines that start at or after position `i`: for the
/// first line that begins with `key`, the rest of that line; `None` when no
/// line matches.
pub open spec fn config_value_from(s: Seq<char>, key: Seq<char>, i: int) -> Option<Seq<char>>
    decreases s.len() - i when 0 <= i <= s.len() via config_value_from_decreases
{
    if i >= s.len() {
        None
    } else {
        let j = line_end_from(s, i);
        if i + key.len() <= j && s.subrange(i, i + key.len() as int) == key {
            Some(s.subrange(i + key.len() as int, j))
        } else if j + 1 <= s.len() {
            config_value_from(s, key, j + 1)
        } else {
            None
        }
    }
}

#[via_fn]
proof fn config_value_from_decreases(s: Seq<char>, key: Seq<char>, i: int) {
    if 0 <= i < s.len() {
        lemma_line_end_from(s, i);
    }
}

/// The raw (untrimmed) value of the first line of `s` that begins with
/// `key`, or `None` when no line does.
pub open spec fn spec_config_value(s: Seq<char>, key: Seq<char>) -> Option<Seq<char>> {
    config_value_from(s, key, 0)
}

/// Decides whether `key` occurs in `s` starting at character position `i`.
fn str_prefix_at(s: &str, i: usize, key: &str) -> (r: bool)
    requires
        i + key@.len() <= s@.len(),
        s@.len() <= usize::MAX,
    ensures
        r == (s@.subrange(i as int, i + key@.len()) == key@),
{
    let klen = key.unicode_len();
    let mut m: usize = 0;
    let mut eq = true;
    while m < klen
        invariant
            m <= klen,
            klen == key@.len(),
            i + klen <= s@.len(),
            s@.len() <= usize::MAX,
            eq ==> forall|k: int| 0 <= k < m ==> s@[i + k] == key@[k],
            !eq ==> exists|k: int| 0 <= k < m && s@[i + k] != key@[k],
        decreases klen - m,
    {
        if s.get_char(i + m) != key.get_char(m) {
            eq = false;
        }
        m += 1;
    }
    proof {
        let sub = s@.subrange(i as int, i + key@.len());
        if eq {
            assert(sub =~= key@);
        } else {
            let k = choose|k: int| 0 <= k < klen && s@[i + k] != key@[k];
            assert(sub[k] != key@[k]);
        }
    }
    eq
}

/// Looks `key` up in the configuration text: the first line that begins with
/// `key` yields the rest of the line, trimmed of surrounding whitespace;
/// `None` when no line matches.
pub fn config_value(config: &str, key: &str) -> (r: Option<String>)
    ensures
        (r is Some) == (spec_config_value(config@, key@) is Some),
        r matches Some(v) ==> v@ == spec_trim(spec_config_value(config@, key@).unwrap()),
{
    let n = config.unicode_len();
    let klen = key.unicode_len();
    let mut i: usize = 0;
    while i < n
        invariant
            n == config@.len(),
            klen == key@.len(),
            0 <= i <= n,
            spec_config_value(config@, key@) == config_value_from(config@, key@, i as int),
        decreases n - i,
    {
        let mut j: usize = i;
        while j < n && config.get_char(j) != '\n'
            invariant
                n == config@.len(),
                i <= j <= n,
                line_end_from(config@, i as int) == line_end_from(config@, j as int),
            decreases n - j,
        {
            j += 1;
        }
        assert(j as int == line_end_from(config@, i as int));
        if j - i >= klen && str_prefix_at(config, i, key) {
            let raw = config.substring_char(i + klen, j);
            let v = trim(raw);
            proof {
                assert(config_value_from(config@, key@, i as int) == Some(
                    config@.subrange(i + klen, j as int),
                ));
            }
            return Some(v);
        }
        proof {
            assert(!(i + klen <= j && config@.subrange(i as int, i + klen) == key@));
        }
        if j == n {
            assert(config_value_from(config@, key@, i as int) is None);
            return None;
        }
        i = j + 1;
    }
    None
}

/// The model name the configuration selects: the value of the first `MODEL=`
/// line, trimmed, or the default `"mistral"` when no such line exists.
pub open spec fn spec_selected_model(config: Seq<char>) -> Seq<char> {
    match spec_config_value(config, "MODEL="@) {
        Some(v) => spec_trim(v),
        None => "mistral"@,
    }
}

/// Reads the selected model name from the configuration text; defaults to
/// `"mistral"`, the local backend's model, when the text has no `MODEL=`
/// line. A caller that could not read the configuration resource passes the
/// empty string, which resolves to the same default.
pub fn get_selected_model(config: &str) -> (r: String)
    ensures
        r@ == spec_selected_model(config@),
{
    match config_value(config, "MODEL=") {
        Some(v) => v,
        None => "mistral".to_owned(),
    }
}

/// The remote credential the configuration holds: the value of the first
/// `OPENAI_API_KEY=` line, trimmed, or `None` when no such line exists.
pub open spec fn spec_api_key(config: Seq<char>) -> Option<Seq<char>> {
    match spec_config_value(config, "OPENAI_API_KEY="@) {
        Some(v) => Some(spec_trim(v)),
        None => None,
    }
}

/// Reads the remote backend's credential from the configuration text, or
/// `None` when the key is absent. Absence is not an error: the orchestrator
/// then skips the remote attempt.
pub fn get_openai_api_key(config: &str) -> (r: Option<String>)
    ensures
        (r is Some) == (spec_api_key(config@) is Some),
        r matches Some(v) ==> v@ == spec_api_key(config@).unwrap(),
{
    config_value(config, "OPENAI_API_KEY=")
}

/// The configuration file's location: `.ai_commit_config` under the home
/// directory, or a fixed sentinel path when the home directory cannot be
/// determined.
pub fn config_file_path(home: Option<&str>) -> (r: String)
    ensures
        home matches Some(h) ==> r@ == h@ + "/.ai_commit_config"@,
        home is None ==> r@ == "/home/unknown/.ai_commit_config"@,
{
    match home {
        Some(h) => {
            let mut r = h.to_owned();
            r.append("/.ai_commit_config");
            r
        },
        None => "/home/unknown/.ai_commit_config".to_owned(),
    }
}

} // verus!
