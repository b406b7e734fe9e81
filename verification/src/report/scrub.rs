//! Takes secrets out of a report.

use crate::config;
use crate::config::Environment;
use crate::json;
use crate::json::{JsonNumber, JsonValue};
use crate::text;
use crate::text::replace;
use vstd::prelude::*;

verus! {

/// What stands in a secret's place.
pub const REDACTED: &'static str = "REDACTED";

/// The variables whose values are secret, in the order in which they are taken
/// out.
pub open spec fn secret_names() -> Seq<Seq<char>> {
    seq![
        "SOLANA_RPC_URL"@,
        "YELLOWSTONE_ENDPOINT"@,
        "YELLOWSTONE_TOKEN"@,
        "JITO_AUTH_KEYPAIR"@,
        "TX_AGENT_REAL_PAYER_KEYPAIR"@,
        "PAYER_KEYPAIR"@,
        "OPENAI_API_KEY"@,
        "JITO_BLOCK_ENGINE_URL"@,
    ]
}

/// The values of the named variables that are set and not empty.
pub open spec fn secrets_named(
    env: Seq<(Seq<char>, Seq<char>)>,
    names: Seq<Seq<char>>,
) -> Seq<Seq<char>>
    decreases names.len(),
{
    if names.len() == 0 {
        Seq::empty()
    } else {
        let rest = secrets_named(env, names.drop_last());
        match config::non_empty(config::lookup(env, names.last())) {
            Some(secret) => rest.push(secret),
            None => rest,
        }
    }
}

/// The secrets of an environment.
pub open spec fn secrets_of(env: Seq<(Seq<char>, Seq<char>)>) -> Seq<Seq<char>> {
    secrets_named(env, secret_names())
}

/// A text with one secret after the other taken out.
pub open spec fn scrubbed(words: Seq<char>, secrets: Seq<Seq<char>>) -> Seq<char>
    decreases secrets.len(),
{
    if secrets.len() == 0 {
        words
    } else {
        text::replaced(scrubbed(words, secrets.drop_last()), secrets.last(), REDACTED@)
    }
}

/// A document with the secrets taken out of every text in it; the names of
/// members stay.
pub open spec fn scrubbed_json(value: json::JsonView, secrets: Seq<Seq<char>>) -> json::JsonView
    decreases value,
{
    match value {
        json::JsonView::Text(words) => json::JsonView::Text(scrubbed(words, secrets)),
        json::JsonView::Array(items) => json::JsonView::Array(
            Seq::new(
                items.len(),
                |i: int|
                    if 0 <= i < items.len() {
                        scrubbed_json(items[i], secrets)
                    } else {
                        json::JsonView::Null
                    },
            ),
        ),
        json::JsonView::Object(members) => json::JsonView::Object(
            Seq::new(
                members.len(),
                |i: int|
                    if 0 <= i < members.len() {
                        (members[i].0, scrubbed_json(members[i].1, secrets))
                    } else {
                        (Seq::empty(), json::JsonView::Null)
                    },
            ),
        ),
        other => other,
    }
}

/// Adds the value of a variable to the secrets, if it is set and not empty.
fn add_secret(secrets: &mut Vec<String>, env: &Environment, name: &str)
    ensures
        text::texts(final(secrets)@) == match config::non_empty(config::lookup(env@, name@)) {
            Some(secret) => text::texts(old(secrets)@).push(secret),
            None => text::texts(old(secrets)@),
        },
{
    match env.get_non_empty(name) {
        Some(secret) => {
            let ghost before = secrets@;
            secrets.push(secret);
            assert(text::texts(secrets@) =~= text::texts(before).push(secret@));
        },
        None => {},
    }
}

/// The secrets of an environment.
pub fn collect_secrets(env: &Environment) -> (secrets: Vec<String>)
    ensures
        text::texts(secrets@) == secrets_of(env@),
        forall|i: int| 0 <= i < secrets@.len() ==> (#[trigger] secrets@[i])@.len() > 0,
{
    let mut secrets: Vec<String> = Vec::new();
    assert(text::texts(secrets@) =~= Seq::<Seq<char>>::empty());
    add_secret(&mut secrets, env, "SOLANA_RPC_URL");
    add_secret(&mut secrets, env, "YELLOWSTONE_ENDPOINT");
    add_secret(&mut secrets, env, "YELLOWSTONE_TOKEN");
    add_secret(&mut secrets, env, "JITO_AUTH_KEYPAIR");
    add_secret(&mut secrets, env, "TX_AGENT_REAL_PAYER_KEYPAIR");
    add_secret(&mut secrets, env, "PAYER_KEYPAIR");
    add_secret(&mut secrets, env, "OPENAI_API_KEY");
    add_secret(&mut secrets, env, "JITO_BLOCK_ENGINE_URL");
    proof {
        let names = secret_names();
        reveal_with_fuel(secrets_named, 9);
        assert(names.drop_last() =~= names.take(7));
        assert(names.take(7).drop_last() =~= names.take(6));
        assert(names.take(6).drop_last() =~= names.take(5));
        assert(names.take(5).drop_last() =~= names.take(4));
        assert(names.take(4).drop_last() =~= names.take(3));
        assert(names.take(3).drop_last() =~= names.take(2));
        assert(names.take(2).drop_last() =~= names.take(1));
        assert(names.take(1).drop_last() =~= Seq::<Seq<char>>::empty());
        assert forall|i: int| 0 <= i < secrets@.len() implies (#[trigger] secrets@[i])@.len()
            > 0 by {
            assert(text::texts(secrets@)[i] == secrets@[i]@);
            secrets_are_not_empty(env@, names, i);
        }
    }
    secrets
}

/// No secret is empty.
pub proof fn secrets_are_not_empty(
    env: Seq<(Seq<char>, Seq<char>)>,
    names: Seq<Seq<char>>,
    i: int,
)
    requires
        0 <= i < secrets_named(env, names).len(),
    ensures
        secrets_named(env, names)[i].len() > 0,
    decreases names.len(),
{
    let rest = secrets_named(env, names.drop_last());
    if i < rest.len() {
        secrets_are_not_empty(env, names.drop_last(), i);
    }
}

/// Takes the secrets out of a text.
pub fn scrub_sensitive_text(words: &str, secrets: &Vec<String>) -> (out: String)
    ensures
        out@ == scrubbed(words@, text::texts(secrets@)),
{
    let mut out: String = words.to_owned();
    assert(text::texts(secrets@.take(0)) =~= Seq::<Seq<char>>::empty());
    for i in 0..secrets.len()
        invariant
            out@ == scrubbed(words@, text::texts(secrets@.take(i as int))),
    {
        proof {
            let next = text::texts(secrets@.take(i + 1));
            assert(next.drop_last() =~= text::texts(secrets@.take(i as int)));
            assert(next.last() == secrets@[i as int]@);
        }
        if !secrets[i].as_str().is_empty() {
            out = replace(out.as_str(), secrets[i].as_str(), REDACTED);
        }
    }
    assert(secrets@.take(secrets@.len() as int) =~= secrets@);
    out
}

/// Takes the secrets out of every text of a document.
pub fn scrub_sensitive_json(value: &JsonValue, secrets: &Vec<String>) -> (out: JsonValue)
    ensures
        out@ == scrubbed_json(value@, text::texts(secrets@)),
    decreases *value,
{
    let ghost list = text::texts(secrets@);
    match value {
        JsonValue::Text(words) => JsonValue::Text(scrub_sensitive_text(words.as_str(), secrets)),
        JsonValue::Array(items) => {
            let mut out: Vec<JsonValue> = Vec::new();
            for i in 0..items.len()
                invariant
                    *value matches JsonValue::Array(v) && v == *items,
                    list == text::texts(secrets@),
                    out@.len() == i,
                    forall|j: int|
                        0 <= j < i ==> (#[trigger] out@[j])@ == scrubbed_json(items@[j]@, list),
            {
                assert(decreases_to!(*value => value->Array_0));
                assert(decreases_to!(items@ => items@[i as int]));
                out.push(scrub_sensitive_json(&items[i], secrets));
            }
            let out = JsonValue::Array(out);
            assert(out@->Array_0 =~= scrubbed_json(value@, list)->Array_0);
            out
        },
        JsonValue::Object(members) => {
            let mut out: Vec<(String, JsonValue)> = Vec::new();
            for i in 0..members.len()
                invariant
                    *value matches JsonValue::Object(v) && v == *members,
                    list == text::texts(secrets@),
                    out@.len() == i,
                    forall|j: int|
                        0 <= j < i ==> (#[trigger] out@[j]).0@ == members@[j].0@ && out@[j].1@
                            == scrubbed_json(members@[j].1@, list),
            {
                assert(decreases_to!(*value => value->Object_0));
                assert(decreases_to!(members@ => members@[i as int]));
                assert(decreases_to!(members@[i as int] => members@[i as int].1));
                let member = scrub_sensitive_json(&members[i].1, secrets);
                out.push((members[i].0.clone(), member));
            }
            let out = JsonValue::Object(out);
            assert(out@->Object_0 =~= scrubbed_json(value@, list)->Object_0);
            out
        },
        JsonValue::Null => JsonValue::Null,
        JsonValue::Bool(b) => JsonValue::Bool(*b),
        JsonValue::Number(JsonNumber::Unsigned(n)) => JsonValue::Number(JsonNumber::Unsigned(*n)),
        JsonValue::Number(JsonNumber::Other(n)) => JsonValue::Number(JsonNumber::Other(n.clone())),
    }
}

// ---------------------------------------------------------------------------
// What is gone
// ---------------------------------------------------------------------------

/// Whether a pattern can never lie across a text: at every shift where the two
/// overlap, some character differs.
pub open spec fn clear_of(pattern: Seq<char>, other: Seq<char>) -> bool {
    forall|k: int|
        -pattern.len() < k < other.len() ==> #[trigger] differs_at_shift(pattern, other, k)
}

/// Whether some character differs where a pattern lies shifted over a text.
pub open spec fn differs_at_shift(pattern: Seq<char>, other: Seq<char>, k: int) -> bool {
    exists|j: int|
        0 <= j < pattern.len() && 0 <= k + j < other.len() && #[trigger] pattern[j] != other[k + j]
}

/// A pattern that stands in three parts put together, and cannot lie across the
/// middle one, stands in the first or in the last.
proof fn occurrence_avoids_middle(
    a: Seq<char>,
    middle: Seq<char>,
    b: Seq<char>,
    pattern: Seq<char>,
    at: int,
)
    requires
        clear_of(pattern, middle),
        text::occurs_at(a + middle + b, pattern, at),
    ensures
        text::occurs_at(a, pattern, at) || text::occurs_at(b, pattern, at - a.len() - middle.len()),
{
    let whole = a + middle + b;
    let k = at - a.len();
    if -pattern.len() < k < middle.len() {
        assert(differs_at_shift(pattern, middle, k));
        let j = choose|j: int|
            0 <= j < pattern.len() && 0 <= k + j < middle.len() && #[trigger] pattern[j]
                != middle[k + j];
        assert(whole.subrange(at, at + pattern.len() as int)[j] == whole[at + j]);
        assert(whole[at + j] == middle[k + j]);
    } else if k <= -pattern.len() {
        assert(a.subrange(at, at + pattern.len() as int) =~= whole.subrange(
            at,
            at + pattern.len() as int,
        ));
    } else {
        let start = at - a.len() - middle.len();
        assert(b.subrange(start, start + pattern.len() as int) =~= whole.subrange(
            at,
            at + pattern.len() as int,
        ));
    }
}

/// A replacement brings no pattern about that cannot lie across what it puts in.
proof fn replacement_adds_nothing(
    words: Seq<char>,
    from: Seq<char>,
    to: Seq<char>,
    pattern: Seq<char>,
)
    requires
        clear_of(pattern, to),
        text::contains_text(text::replaced(words, from, to), pattern),
    ensures
        text::contains_text(words, pattern),
    decreases words.len(),
{
    if from.len() > 0 && text::contains_text(words, from) {
        let at = choose|at: int| text::is_first_occurrence(words, from, at);
        if 0 <= at && at + from.len() <= words.len() {
            let a = words.take(at);
            let rest = words.skip(at + from.len());
            let b = text::replaced(rest, from, to);
            let p = choose|p: int| text::occurs_at(text::replaced(words, from, to), pattern, p);
            occurrence_avoids_middle(a, to, b, pattern, p);
            if text::occurs_at(a, pattern, p) {
                assert(words.subrange(p, p + pattern.len() as int) =~= a.subrange(
                    p,
                    p + pattern.len() as int,
                ));
                assert(text::occurs_at(words, pattern, p));
            } else {
                replacement_adds_nothing(rest, from, to, pattern);
                let q = choose|q: int| text::occurs_at(rest, pattern, q);
                let start = q + at + from.len();
                assert(words.subrange(start, start + pattern.len() as int) =~= rest.subrange(
                    q,
                    q + pattern.len() as int,
                ));
                assert(text::occurs_at(words, pattern, start));
            }
        }
    }
}

/// There is a leftmost occurrence wherever there is one.
proof fn first_occurrence_exists(words: Seq<char>, pattern: Seq<char>, bound: int)
    requires
        text::occurs_at(words, pattern, bound),
    ensures
        exists|at: int| text::is_first_occurrence(words, pattern, at),
    decreases bound,
{
    if exists|j: int| 0 <= j < bound && text::occurs_at(words, pattern, j) {
        let j = choose|j: int| 0 <= j < bound && text::occurs_at(words, pattern, j);
        first_occurrence_exists(words, pattern, j);
    } else {
        assert(text::is_first_occurrence(words, pattern, bound));
    }
}

/// A replaced pattern is gone, unless it can lie across what is put in.
pub proof fn replacement_removes(words: Seq<char>, from: Seq<char>, to: Seq<char>)
    requires
        from.len() > 0,
        clear_of(from, to),
    ensures
        !text::contains_text(text::replaced(words, from, to), from),
    decreases words.len(),
{
    if text::contains_text(words, from) {
        let bound = choose|at: int| text::occurs_at(words, from, at);
        first_occurrence_exists(words, from, bound);
        let at = choose|at: int| text::is_first_occurrence(words, from, at);
        let a = words.take(at);
        let rest = words.skip(at + from.len());
        let b = text::replaced(rest, from, to);
        replacement_removes(rest, from, to);
        if text::contains_text(text::replaced(words, from, to), from) {
            let p = choose|p: int| text::occurs_at(text::replaced(words, from, to), from, p);
            occurrence_avoids_middle(a, to, b, from, p);
            if text::occurs_at(a, from, p) {
                assert(words.subrange(p, p + from.len() as int) =~= a.subrange(
                    p,
                    p + from.len() as int,
                ));
                assert(text::occurs_at(words, from, p));
                assert(p < at);
            }
            assert(false);
        }
    }
}

/// A scrubbed text holds none of the secrets, but for one that can lie across
/// the word put in its place.
pub proof fn scrubbed_text_holds_no_secret(words: Seq<char>, secrets: Seq<Seq<char>>, i: int)
    requires
        0 <= i < secrets.len(),
        secrets[i].len() > 0,
        clear_of(secrets[i], REDACTED@),
    ensures
        !text::contains_text(scrubbed(words, secrets), secrets[i]),
    decreases secrets.len(),
{
    let rest = secrets.drop_last();
    let before = scrubbed(words, rest);
    if i == secrets.len() - 1 {
        replacement_removes(before, secrets.last(), REDACTED@);
    } else {
        assert(rest[i] == secrets[i]);
        scrubbed_text_holds_no_secret(words, rest, i);
        if text::contains_text(scrubbed(words, secrets), secrets[i]) {
            replacement_adds_nothing(before, secrets.last(), REDACTED@, secrets[i]);
        }
    }
}

/// Whether no text of a document holds a pattern.
pub open spec fn json_lacks(value: json::JsonView, pattern: Seq<char>) -> bool
    decreases value,
{
    match value {
        json::JsonView::Text(words) => !text::contains_text(words, pattern),
        json::JsonView::Array(items) => forall|i: int|
            0 <= i < items.len() ==> json_lacks(#[trigger] items[i], pattern),
        json::JsonView::Object(members) => forall|i: int|
            0 <= i < members.len() ==> json_lacks((#[trigger] members[i]).1, pattern),
        _ => true,
    }
}

/// A scrubbed document holds none of the secrets in any of its texts, but for
/// one that can lie across the word put in its place.
pub proof fn scrubbed_document_holds_no_secret(
    value: json::JsonView,
    secrets: Seq<Seq<char>>,
    i: int,
)
    requires
        0 <= i < secrets.len(),
        secrets[i].len() > 0,
        clear_of(secrets[i], REDACTED@),
    ensures
        json_lacks(scrubbed_json(value, secrets), secrets[i]),
    decreases value,
{
    match value {
        json::JsonView::Text(words) => {
            scrubbed_text_holds_no_secret(words, secrets, i);
        },
        json::JsonView::Array(items) => {
            let out = scrubbed_json(value, secrets)->Array_0;
            assert forall|k: int| 0 <= k < out.len() implies json_lacks(
                #[trigger] out[k],
                secrets[i],
            ) by {
                scrubbed_document_holds_no_secret(items[k], secrets, i);
            }
        },
        json::JsonView::Object(members) => {
            let out = scrubbed_json(value, secrets)->Object_0;
            assert forall|k: int| 0 <= k < out.len() implies json_lacks(
                (#[trigger] out[k]).1,
                secrets[i],
            ) by {
                assert(decreases_to!(members => members[k]));
                assert(decreases_to!(members[k] => members[k].1));
                scrubbed_document_holds_no_secret(members[k].1, secrets, i);
            }
        },
        _ => {},
    }
}

/// A text without any secret stays as it is.
pub proof fn harmless_text_stays(words: Seq<char>, secrets: Seq<Seq<char>>)
    requires
        forall|i: int|
            0 <= i < secrets.len() ==> !text::contains_text(words, #[trigger] secrets[i]),
    ensures
        scrubbed(words, secrets) == words,
    decreases secrets.len(),
{
    if secrets.len() > 0 {
        let rest = secrets.drop_last();
        assert forall|i: int| 0 <= i < rest.len() implies !text::contains_text(
            words,
            #[trigger] rest[i],
        ) by {
            assert(rest[i] == secrets[i]);
        }
        harmless_text_stays(words, rest);
        assert(!text::contains_text(words, secrets[secrets.len() - 1]));
    }
}

/// The value of every named variable that is set and not empty is a secret.
proof fn named_values_are_secret(
    env: Seq<(Seq<char>, Seq<char>)>,
    names: Seq<Seq<char>>,
    i: int,
    value: Seq<char>,
)
    requires
        0 <= i < names.len(),
        config::lookup(env, names[i]) == Some(value),
        value.len() > 0,
    ensures
        secrets_named(env, names).contains(value),
    decreases names.len(),
{
    let rest = secrets_named(env, names.drop_last());
    if i == names.len() - 1 {
        let all = secrets_named(env, names);
        assert(all[all.len() - 1] == value);
    } else {
        assert(names.drop_last()[i] == names[i]);
        named_values_are_secret(env, names.drop_last(), i, value);
        let k = choose|k: int| 0 <= k < rest.len() && rest[k] == value;
        assert(secrets_named(env, names)[k] == value);
    }
}

/// The nodes, the tokens, the key files and the keys that the environment names
/// are secrets.
pub proof fn sensitive_variables_are_secret(
    env: Seq<(Seq<char>, Seq<char>)>,
    name: Seq<char>,
    value: Seq<char>,
)
    requires
        name == "SOLANA_RPC_URL"@ || name == "YELLOWSTONE_ENDPOINT"@ || name
            == "YELLOWSTONE_TOKEN"@ || name == "JITO_AUTH_KEYPAIR"@ || name
            == "TX_AGENT_REAL_PAYER_KEYPAIR"@ || name == "PAYER_KEYPAIR"@ || name
            == "OPENAI_API_KEY"@ || name == "JITO_BLOCK_ENGINE_URL"@,
        config::lookup(env, name) == Some(value),
        value.len() > 0,
    ensures
        secrets_of(env).contains(value),
{
    let names = secret_names();
    let i = choose|i: int| 0 <= i < 8 && #[trigger] names[i] == name;
    assert(names[0] == "SOLANA_RPC_URL"@ && names[1] == "YELLOWSTONE_ENDPOINT"@ && names[2]
        == "YELLOWSTONE_TOKEN"@ && names[3] == "JITO_AUTH_KEYPAIR"@ && names[4]
        == "TX_AGENT_REAL_PAYER_KEYPAIR"@ && names[5] == "PAYER_KEYPAIR"@ && names[6]
        == "OPENAI_API_KEY"@ && names[7] == "JITO_BLOCK_ENGINE_URL"@);
    named_values_are_secret(env, names, i, value);
}

/// A document keeps its shape, its numbers, its truth values and the names of its
/// members; only its texts change, each as a text by itself would.
pub proof fn documents_keep_their_shape(value: json::JsonView, secrets: Seq<Seq<char>>)
    ensures
        match value {
            json::JsonView::Text(words) => scrubbed_json(value, secrets) == json::JsonView::Text(
                scrubbed(words, secrets),
            ),
            json::JsonView::Array(items) => scrubbed_json(value, secrets) matches json::JsonView::Array(
                out,
            ) && out.len() == items.len() && forall|i: int|
                0 <= i < items.len() ==> #[trigger] out[i] == scrubbed_json(items[i], secrets),
            json::JsonView::Object(members) => scrubbed_json(
                value,
                secrets,
            ) matches json::JsonView::Object(out) && out.len() == members.len() && forall|i: int|
                0 <= i < members.len() ==> (#[trigger] out[i]).0 == members[i].0 && out[i].1
                    == scrubbed_json(members[i].1, secrets),
            _ => scrubbed_json(value, secrets) == value,
        },
{
}

/// A secret is replaced by one fixed word, and what stands around it stays.
pub proof fn secrets_are_replaced_in_place(
    before: Seq<char>,
    secret: Seq<char>,
    after: Seq<char>,
)
    requires
        secret.len() > 0,
        text::is_first_occurrence(before + secret + after, secret, before.len() as int),
        !text::contains_text(after, secret),
    ensures
        scrubbed(before + secret + after, seq![secret]) == before + "REDACTED"@ + after,
{
    let words = before + secret + after;
    reveal_with_fuel(scrubbed, 2);
    assert(seq![secret].drop_last() =~= Seq::<Seq<char>>::empty());
    let at = choose|at: int| text::is_first_occurrence(words, secret, at);
    if at < before.len() {
        assert(!text::occurs_at(words, secret, at));
    }
    if at > before.len() {
        assert(!text::occurs_at(words, secret, before.len() as int));
    }
    assert(at == before.len());
    assert(words.take(at) =~= before);
    assert(words.skip(at + secret.len()) =~= after);
    assert(text::contains_text(words, secret));
    assert(text::replaced(after, secret, REDACTED@) == after);
    assert(text::replaced(words, secret, REDACTED@) == before + REDACTED@ + after);
    assert(scrubbed(words, Seq::empty()) == words);
}

} // verus!
