//! Where an API key is found. Each provider looks at its sources in a fixed
//! order (environment variables, key files, JSON credential files); every
//! source yields at most one candidate, and the key is the first candidate
//! that is not blank, trimmed.

use crate::json::{as_text, get_member, member, text_of, JsonNode};
use crate::text::{lemma_trim_idempotent, trim_text, trimmed};
use crate::usage::opt_text;
use vstd::prelude::*;

verus! {

/// A credential file that could be read: its text, and its JSON document
/// when the text parses as JSON.
pub struct CredentialFile {
    pub text: String,
    pub json: Option<JsonNode>,
}

/// The first candidate whose trimmed text is not empty, trimmed.
pub open spec fn first_key(cands: Seq<Option<Seq<char>>>) -> Option<Seq<char>>
    decreases cands.len(),
{
    if cands.len() == 0 {
        None
    } else {
        match cands[0] {
            Some(c) => if trimmed(c).len() > 0 {
                Some(trimmed(c))
            } else {
                first_key(cands.drop_first())
            },
            None => first_key(cands.drop_first()),
        }
    }
}

pub open spec fn candidates_view(cands: Seq<Option<String>>) -> Seq<Option<Seq<char>>> {
    cands.map_values(|c: Option<String>| opt_text(c))
}

pub(crate) proof fn lemma_first_key_skip(cands: Seq<Option<Seq<char>>>, i: int)
    requires
        0 <= i <= cands.len(),
        forall|k: int|
            0 <= k < i ==> match #[trigger] cands[k] {
                Some(c) => trimmed(c).len() == 0,
                None => true,
            },
    ensures
        first_key(cands) == first_key(cands.skip(i)),
    decreases i,
{
    if i > 0 {
        assert forall|k: int| 0 <= k < i - 1 implies match #[trigger] cands.drop_first()[k] {
            Some(c) => trimmed(c).len() == 0,
            None => true,
        } by {
            assert(cands.drop_first()[k] == cands[k + 1]);
        }
        lemma_first_key_skip(cands.drop_first(), i - 1);
        assert(cands.drop_first().skip(i - 1) =~= cands.skip(i));
        assert(match cands[0] {
            Some(c) => trimmed(c).len() == 0,
            None => true,
        });
    } else {
        assert(cands.skip(0) =~= cands);
    }
}

/// A key that is found is never blank: it is the trimmed text of one of
/// the candidates. No key is found only when every candidate is missing
/// or blank.
pub proof fn lemma_found_key_is_trimmed_candidate(cands: Seq<Option<Seq<char>>>)
    ensures
        first_key(cands) matches Some(k) ==> k.len() > 0 && trimmed(k) == k && exists|
            i: int,
            c: Seq<char>,
        | 0 <= i < cands.len() && cands[i] == Some(c) && k == trimmed(c),
        first_key(cands) is None <==> forall|i: int|
            0 <= i < cands.len() ==> match #[trigger] cands[i] {
                Some(c) => trimmed(c).len() == 0,
                None => true,
            },
    decreases cands.len(),
{
    if cands.len() > 0 {
        let rest = cands.drop_first();
        lemma_found_key_is_trimmed_candidate(rest);
        match cands[0] {
            Some(c) => {
                if trimmed(c).len() > 0 {
                    assert(cands[0] == Some(c));
                    lemma_trim_idempotent(c);
                } else {
                    if first_key(rest) is Some {
                        let k = first_key(rest)->0;
                        let (i, c2) = choose|i: int, c2: Seq<char>|
                            0 <= i < rest.len() && rest[i] == Some(c2) && k == trimmed(c2);
                        assert(cands[i + 1] == Some(c2));
                    }
                }
            },
            None => {
                if first_key(rest) is Some {
                    let k = first_key(rest)->0;
                    let (i, c2) = choose|i: int, c2: Seq<char>|
                        0 <= i < rest.len() && rest[i] == Some(c2) && k == trimmed(c2);
                    assert(cands[i + 1] == Some(c2));
                }
            },
        }
        if first_key(cands) is None {
            assert forall|i: int| 0 <= i < cands.len() implies match #[trigger] cands[i] {
                Some(c) => trimmed(c).len() == 0,
                None => true,
            } by {
                if i > 0 {
                    assert(cands[i] == rest[i - 1]);
                }
            }
        }
        if forall|i: int|
            0 <= i < cands.len() ==> match #[trigger] cands[i] {
                Some(c) => trimmed(c).len() == 0,
                None => true,
            } {
            assert forall|i: int| 0 <= i < rest.len() implies match #[trigger] rest[i] {
                Some(c) => trimmed(c).len() == 0,
                None => true,
            } by {
                assert(rest[i] == cands[i + 1]);
            }
            assert(match cands[0] {
                Some(c) => trimmed(c).len() == 0,
                None => true,
            });
        }
    }
}

/// The environment variable comes first: when it holds a key that is not
/// blank, that key is the one found, whatever the files hold.
pub proof fn lemma_environment_wins(
    env: Option<String>,
    files: Seq<Option<CredentialFile>>,
    key_file: Option<String>,
    bare_text_allowed: bool,
)
    requires
        env matches Some(e) && trimmed(e@).len() > 0,
    ensures
        first_key(layered_candidates(env, files, key_file, bare_text_allowed)) == Some(
            trimmed(env->0@),
        ),
{
}

/// Picks the key among the candidates, in order.
pub fn first_usable_key(cands: &Vec<Option<String>>) -> (r: Option<String>)
    ensures
        opt_text(r) == first_key(candidates_view(cands@)),
        r matches Some(k) ==> k@.len() > 0 && trimmed(k@) == k@,
{
    let ghost all = candidates_view(cands@);
    let mut i: usize = 0;
    while i < cands.len()
        invariant
            all == candidates_view(cands@),
            i <= cands.len(),
            forall|k: int|
                0 <= k < i ==> match #[trigger] all[k] {
                    Some(c) => trimmed(c).len() == 0,
                    None => true,
                },
        decreases cands.len() - i,
    {
        match &cands[i] {
            Some(c) => {
                let t = trim_text(c.as_str());
                if !t.as_str().is_empty() {
                    proof {
                        lemma_first_key_skip(all, i as int);
                        assert(all.skip(i as int)[0] == all[i as int]);
                        lemma_trim_idempotent(c@);
                    }
                    return Some(t);
                }
            },
            None => {},
        }
        assert(all[i as int] == opt_text(cands@[i as int]));
        i = i + 1;
    }
    proof {
        lemma_first_key_skip(all, i as int);
    }
    None
}

/// The key in a credential document: its `api_key` member when present,
/// else its `key` member; only a string counts.
pub open spec fn key_field(doc: JsonNode) -> Option<Seq<char>> {
    match member(doc, "api_key"@) {
        Some(v) => text_of(Some(v)),
        None => text_of(member(doc, "key"@)),
    }
}

proof fn lemma_text_view(r: Option<String>)
    ensures
        r.deep_view() == opt_text(r),
{
}

/// Computes `key_field(*doc)`.
pub fn key_field_of(doc: &JsonNode) -> (r: Option<String>)
    ensures
        opt_text(r) == key_field(*doc),
{
    let r = match get_member(doc, "api_key") {
        Some(v) => as_text(Some(v)),
        None => as_text(get_member(doc, "key")),
    };
    proof {
        lemma_text_view(r);
    }
    r
}

/// The candidate of a JSON-only credential file: the key field of a file
/// that parses as JSON.
pub open spec fn json_candidate(f: Option<CredentialFile>) -> Option<Seq<char>> {
    match f {
        Some(cf) => match cf.json {
            Some(doc) => key_field(doc),
            None => None,
        },
        None => None,
    }
}

/// The candidate of a credential file that may hold the bare key: the key
/// field when it parses as JSON, its whole text otherwise.
pub open spec fn json_or_text_candidate(f: Option<CredentialFile>) -> Option<Seq<char>> {
    match f {
        Some(cf) => match cf.json {
            Some(doc) => key_field(doc),
            None => Some(cf.text@),
        },
        None => None,
    }
}

/// Computes `json_candidate(*f)`.
pub fn json_candidate_of(f: &Option<CredentialFile>) -> (r: Option<String>)
    ensures
        opt_text(r) == json_candidate(*f),
{
    match f {
        Some(cf) => match &cf.json {
            Some(doc) => key_field_of(doc),
            None => None,
        },
        None => None,
    }
}

/// Computes `json_or_text_candidate(*f)`.
pub fn json_or_text_candidate_of(f: &Option<CredentialFile>) -> (r: Option<String>)
    ensures
        opt_text(r) == json_or_text_candidate(*f),
{
    match f {
        Some(cf) => match &cf.json {
            Some(doc) => key_field_of(doc),
            None => Some(cf.text.clone()),
        },
        None => None,
    }
}

/// The candidates of the usual layout: the environment variable, each
/// credential file in order (read by `per_file`), then the key file.
pub open spec fn layered_candidates(
    env: Option<String>,
    files: Seq<Option<CredentialFile>>,
    key_file: Option<String>,
    bare_text_allowed: bool,
) -> Seq<Option<Seq<char>>> {
    seq![opt_text(env)] + files.map_values(
        |f: Option<CredentialFile>|
            if bare_text_allowed {
                json_or_text_candidate(f)
            } else {
                json_candidate(f)
            },
    ) + seq![opt_text(key_file)]
}

/// Builds the candidates of `layered_candidates`.
pub fn layered_candidates_of(
    env: Option<String>,
    files: &Vec<Option<CredentialFile>>,
    key_file: Option<String>,
    bare_text_allowed: bool,
) -> (c: Vec<Option<String>>)
    ensures
        candidates_view(c@) == layered_candidates(env, files@, key_file, bare_text_allowed),
{
    let ghost env0 = env;
    let ghost key0 = key_file;
    let ghost env_view = opt_text(env);
    let ghost per = |f: Option<CredentialFile>|
        if bare_text_allowed {
            json_or_text_candidate(f)
        } else {
            json_candidate(f)
        };
    let mut c: Vec<Option<String>> = Vec::new();
    c.push(env);
    let mut i: usize = 0;
    assert(candidates_view(c@) =~= seq![env_view] + files@.take(0).map_values(per));
    while i < files.len()
        invariant
            i <= files.len(),
            candidates_view(c@) == seq![env_view] + files@.take(i as int).map_values(per),
            per == (|f: Option<CredentialFile>|
                if bare_text_allowed {
                    json_or_text_candidate(f)
                } else {
                    json_candidate(f)
                }),
        decreases files.len() - i,
    {
        let cand = if bare_text_allowed {
            json_or_text_candidate_of(&files[i])
        } else {
            json_candidate_of(&files[i])
        };
        assert(opt_text(cand) == per(files@[i as int]));
        let ghost old_c = c@;
        c.push(cand);
        assert(candidates_view(c@) =~= candidates_view(old_c).push(opt_text(cand)));
        assert(files@.take(i + 1).map_values(per) =~= files@.take(i as int).map_values(per).push(
            per(files@[i as int]),
        ));
        assert(candidates_view(c@) =~= seq![env_view] + files@.take(i + 1).map_values(per));
        i = i + 1;
    }
    assert(files@.take(files.len() as int) =~= files@);
    c.push(key_file);
    assert(candidates_view(c@) =~= layered_candidates(env0, files@, key0, bare_text_allowed));
    c
}

} // verus!
