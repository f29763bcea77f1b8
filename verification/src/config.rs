//! The configuration mutator.
//!
//! Merges the resolved target instance into the caller's partial mirroring
//! configuration: the document must be a JSON object; its `target` member
//! is inserted or overwritten with the resolved instance, and every other
//! top-level member is passed through unchanged. The function is pure: it
//! touches no file and spawns nothing.

use vstd::prelude::*;

use crate::errors::ConfigError;
use crate::json::{
    ser, parse_document, members_view, json_view, lemma_members_view_index, parse_json,
    write_json, Json, JsonData,
};
use crate::text::{str_to_chars, chars_to_string, chars_eq};

verus! {

/// The hexadecimal digit for `n`, lower case.
pub open spec fn hex_digit(n: u32) -> char {
    if n == 0 {
        '0'
    } else if n == 1 {
        '1'
    } else if n == 2 {
        '2'
    } else if n == 3 {
        '3'
    } else if n == 4 {
        '4'
    } else if n == 5 {
        '5'
    } else if n == 6 {
        '6'
    } else if n == 7 {
        '7'
    } else if n == 8 {
        '8'
    } else if n == 9 {
        '9'
    } else if n == 10 {
        'a'
    } else if n == 11 {
        'b'
    } else if n == 12 {
        'c'
    } else if n == 13 {
        'd'
    } else if n == 14 {
        'e'
    } else {
        'f'
    }
}

/// The escaped form of one character inside a JSON string body.
pub open spec fn escape_char(c: char) -> Seq<char> {
    if c == '"' {
        seq!['\\', '"']
    } else if c == '\\' {
        seq!['\\', '\\']
    } else if c == '\n' {
        seq!['\\', 'n']
    } else if c == '\r' {
        seq!['\\', 'r']
    } else if c == '\t' {
        seq!['\\', 't']
    } else if !(' ' <= c) {
        seq!['\\', 'u', '0', '0', hex_digit(c as u32 / 16), hex_digit(c as u32 % 16)]
    } else {
        seq![c]
    }
}

/// The body of a JSON string holding exactly the characters of `s`.
pub open spec fn escape_body(s: Seq<char>) -> Seq<char>
    decreases s.len(),
{
    if s.len() == 0 {
        Seq::empty()
    } else {
        escape_body(s.drop_last()) + escape_char(s.last())
    }
}

/// The key the mutator owns.
pub open spec fn target_key() -> Seq<char> {
    "target"@
}

/// The model of the `target` member bound to a resolved instance.
pub open spec fn target_data(pod: Seq<char>, ns: Seq<char>) -> JsonData {
    JsonData::Obj(
        seq![
            ("namespace"@, JsonData::Str(escape_body(ns))),
            ("path"@, JsonData::Str("pod/"@ + escape_body(pod))),
        ],
    )
}

/// The members of `ms` whose key is not `"target"`, in their order.
pub open spec fn without_target(ms: Seq<(Seq<char>, JsonData)>) -> Seq<(Seq<char>, JsonData)>
    decreases ms.len(),
{
    if ms.len() == 0 {
        Seq::empty()
    } else if ms.last().0 == target_key() {
        without_target(ms.drop_last())
    } else {
        without_target(ms.drop_last()).push(ms.last())
    }
}

/// The merged top level: every member whose key is not `"target"` kept in
/// order, then `"target"` bound to the resolved instance.
pub open spec fn merged_members(ms: Seq<(Seq<char>, JsonData)>, target: JsonData) -> Seq<
    (Seq<char>, JsonData),
> {
    without_target(ms).push((target_key(), target))
}

proof fn lemma_without_target_contains(ms: Seq<(Seq<char>, JsonData)>)
    ensures
        forall|kv: (Seq<char>, JsonData)|
            ms.contains(kv) && kv.0 != target_key() ==> without_target(ms).contains(kv),
        forall|kv: (Seq<char>, JsonData)|
            without_target(ms).contains(kv) ==> ms.contains(kv) && kv.0 != target_key(),
    decreases ms.len(),
{
    if ms.len() == 0 {
    } else {
        let prefix = ms.drop_last();
        let last = ms.last();
        lemma_without_target_contains(prefix);
        assert forall|kv: (Seq<char>, JsonData)|
            ms.contains(kv) && kv.0 != target_key() implies without_target(ms).contains(kv) by {
            let i = choose|i: int| 0 <= i < ms.len() && ms[i] == kv;
            if i < ms.len() - 1 {
                assert(prefix[i] == kv);
                assert(prefix.contains(kv));
                assert(without_target(prefix).contains(kv));
                let t = choose|t: int|
                    0 <= t < without_target(prefix).len() && without_target(prefix)[t] == kv;
                if last.0 == target_key() {
                    assert(without_target(ms)[t] == kv);
                } else {
                    assert(without_target(ms)[t] == kv);
                }
            } else {
                assert(kv == last);
                assert(without_target(ms).last() == kv);
            }
        }
        assert forall|kv: (Seq<char>, JsonData)|
            without_target(ms).contains(kv) implies ms.contains(kv) && kv.0 != target_key() by {
            let t = choose|t: int|
                0 <= t < without_target(ms).len() && without_target(ms)[t] == kv;
            if last.0 == target_key() {
                assert(without_target(prefix)[t] == kv);
                assert(without_target(prefix).contains(kv));
                assert(prefix.contains(kv));
                let i = choose|i: int| 0 <= i < prefix.len() && prefix[i] == kv;
                assert(ms[i] == kv);
            } else {
                if t < without_target(ms).len() - 1 {
                    assert(without_target(prefix)[t] == kv);
                    assert(without_target(prefix).contains(kv));
                    assert(prefix.contains(kv));
                    let i = choose|i: int| 0 <= i < prefix.len() && prefix[i] == kv;
                    assert(ms[i] == kv);
                } else {
                    assert(kv == last);
                    assert(ms[ms.len() - 1] == kv);
                }
            }
        }
    }
}

/// Law: the merged top level keeps exactly the members whose key is not
/// `"target"`, and binds `"target"`, as its last member, to an object whose
/// `"path"` is `"pod/"` followed by the escaped resolved name and whose
/// `"namespace"` is the escaped namespace.
pub proof fn lemma_merge_preserves_members(
    ms: Seq<(Seq<char>, JsonData)>,
    pod: Seq<char>,
    ns: Seq<char>,
)
    ensures
        forall|kv: (Seq<char>, JsonData)|
            ms.contains(kv) && kv.0 != target_key() ==> merged_members(
                ms,
                target_data(pod, ns),
            ).contains(kv),
        forall|kv: (Seq<char>, JsonData)|
            merged_members(ms, target_data(pod, ns)).contains(kv) ==> (ms.contains(kv) && kv.0
                != target_key()) || kv == (target_key(), target_data(pod, ns)),
        merged_members(ms, target_data(pod, ns)).last() == (
            target_key(),
            target_data(pod, ns),
        ),
        target_data(pod, ns) == JsonData::Obj(
            seq![
                ("namespace"@, JsonData::Str(escape_body(ns))),
                ("path"@, JsonData::Str("pod/"@ + escape_body(pod))),
            ],
        ),
{
    let target = target_data(pod, ns);
    let merged = merged_members(ms, target);
    lemma_without_target_contains(ms);
    assert forall|kv: (Seq<char>, JsonData)|
        ms.contains(kv) && kv.0 != target_key() implies merged.contains(kv) by {
        let t = choose|t: int|
            0 <= t < without_target(ms).len() && without_target(ms)[t] == kv;
        assert(merged[t] == kv);
    }
    assert forall|kv: (Seq<char>, JsonData)|
        merged.contains(kv) implies (ms.contains(kv) && kv.0 != target_key()) || kv == (
        target_key(),
        target,
    ) by {
        let t = choose|t: int| 0 <= t < merged.len() && merged[t] == kv;
        if t < merged.len() - 1 {
            assert(without_target(ms)[t] == kv);
            assert(without_target(ms).contains(kv));
        }
    }
}

fn hex_digit_exec(n: u32) -> (r: char)
    ensures
        r == hex_digit(n),
{
    if n == 0 {
        '0'
    } else if n == 1 {
        '1'
    } else if n == 2 {
        '2'
    } else if n == 3 {
        '3'
    } else if n == 4 {
        '4'
    } else if n == 5 {
        '5'
    } else if n == 6 {
        '6'
    } else if n == 7 {
        '7'
    } else if n == 8 {
        '8'
    } else if n == 9 {
        '9'
    } else if n == 10 {
        'a'
    } else if n == 11 {
        'b'
    } else if n == 12 {
        'c'
    } else if n == 13 {
        'd'
    } else if n == 14 {
        'e'
    } else {
        'f'
    }
}

/// Escapes the characters of `s` for use as a JSON string body.
fn escape_chars(s: &Vec<char>) -> (r: Vec<char>)
    ensures
        r@ == escape_body(s@),
{
    let mut r: Vec<char> = Vec::new();
    let mut k: usize = 0;
    while k < s.len()
        invariant
            k <= s@.len(),
            r@ == escape_body(s@.subrange(0, k as int)),
        decreases s@.len() - k,
    {
        let ghost prev = s@.subrange(0, k as int);
        let c = s[k];
        if c == '"' {
            r.push('\\');
            r.push('"');
        } else if c == '\\' {
            r.push('\\');
            r.push('\\');
        } else if c == '\n' {
            r.push('\\');
            r.push('n');
        } else if c == '\r' {
            r.push('\\');
            r.push('r');
        } else if c == '\t' {
            r.push('\\');
            r.push('t');
        } else if !(' ' <= c) {
            let n = c as u32;
            r.push('\\');
            r.push('u');
            r.push('0');
            r.push('0');
            r.push(hex_digit_exec(n / 16));
            r.push(hex_digit_exec(n % 16));
        } else {
            r.push(c);
        }
        k = k + 1;
        proof {
            let cur = s@.subrange(0, k as int);
            assert(cur.drop_last() =~= prev);
            assert(cur.last() == c);
            assert(r@ =~= escape_body(cur));
        }
    }
    proof {
        assert(s@.subrange(0, s@.len() as int) =~= s@);
    }
    r
}

/// Merges the resolved instance into the caller's partial configuration.
///
/// `pod_name` is the name of the running instance that resolution found;
/// `namespace` is the namespace it was found in. The result is the full
/// document handed to the mirroring tool, serialized compactly.
#[verifier::loop_isolation(false)]
pub fn update_mirrord_config(mirrord_config: &str, pod_name: &str, namespace: &str) -> (r: Result<
    String,
    ConfigError,
>)
    ensures
        parse_document(mirrord_config@) is None ==> r == Err::<String, ConfigError>(
            ConfigError::InvalidJson,
        ),
        (parse_document(mirrord_config@) matches Some(d) && !(d is Obj)) ==> r == Err::<
            String,
            ConfigError,
        >(ConfigError::NotAnObject),
        parse_document(mirrord_config@) matches Some(JsonData::Obj(ms)) ==> (r matches Ok(out)
            && out@ == ser(
            JsonData::Obj(merged_members(ms, target_data(pod_name@, namespace@))),
        )),
{
    let chars = str_to_chars(mirrord_config);
    let parsed = parse_json(&chars);
    match parsed {
        None => Err(ConfigError::InvalidJson),
        Some(doc) => match doc {
            Json::Obj(ms) => {
                let ghost model = members_view(ms@);
                proof {
                    lemma_members_view_index(ms@);
                }
                let tk = str_to_chars("target");
                let mut rest = ms;
                let ghost ms0 = rest@;
                let total: usize = rest.len();
                let mut kept: Vec<(Vec<char>, Json)> = Vec::new();
                let mut k: usize = 0;
                while rest.len() > 0
                    invariant
                        total == ms0.len(),
                        k + rest@.len() == ms0.len(),
                        rest@ =~= ms0.subrange(k as int, ms0.len() as int),
                        members_view(kept@) == without_target(model.subrange(0, k as int)),
                        tk@ == target_key(),
                    decreases rest@.len(),
                {
                    let ghost prev = model.subrange(0, k as int);
                    let kv = rest.remove(0);
                    proof {
                        assert(kv == ms0[k as int]);
                        assert(rest@ =~= ms0.subrange(k as int + 1, ms0.len() as int));
                    }
                    let keep = !chars_eq(&kv.0, &tk);
                    let ghost kept0 = kept@;
                    if keep {
                        kept.push(kv);
                    }
                    k = k + 1;
                    proof {
                        let cur = model.subrange(0, k as int);
                        assert(cur.drop_last() =~= prev);
                        assert(cur.last() == model[k as int - 1]);
                        assert(model[k as int - 1] == (ms0[k as int - 1].0@, json_view(
                            ms0[k as int - 1].1,
                        )));
                        if keep {
                            assert(kept@ =~= kept0.push(ms0[k as int - 1]));
                            assert(kept@.drop_last() =~= kept0);
                            assert(kept@.last() == ms0[k as int - 1]);
                            assert(members_view(kept@) == members_view(kept@.drop_last()).push(
                                (kept@.last().0@, json_view(kept@.last().1)),
                            ));
                        }
                        assert(members_view(kept@) =~= without_target(cur));
                    }
                }
                proof {
                    assert(model.subrange(0, ms0.len() as int) =~= model);
                }
                let ns_chars = str_to_chars(namespace);
                let pod_chars = str_to_chars(pod_name);
                let ns_escaped = escape_chars(&ns_chars);
                let mut path = str_to_chars("pod/");
                let mut pod_escaped = escape_chars(&pod_chars);
                path.append(&mut pod_escaped);
                let mut target_members: Vec<(Vec<char>, Json)> = Vec::new();
                target_members.push((str_to_chars("namespace"), Json::Str(ns_escaped)));
                target_members.push((str_to_chars("path"), Json::Str(path)));
                let ghost tm = target_members@;
                let target = Json::Obj(target_members);
                let ghost target_model = target_data(pod_name@, namespace@);
                proof {
                    assert(tm.len() == 2);
                    assert(tm.drop_last().drop_last() =~= Seq::<(Vec<char>, Json)>::empty());
                    assert(members_view(tm.drop_last().drop_last()) == Seq::<
                        (Seq<char>, JsonData),
                    >::empty());
                    assert(tm.drop_last().last() == tm[0]);
                    assert(members_view(tm.drop_last()) =~= seq![(tm[0].0@, json_view(tm[0].1))]);
                    assert(members_view(tm) =~= seq![
                        (tm[0].0@, json_view(tm[0].1)),
                        (tm[1].0@, json_view(tm[1].1)),
                    ]);
                    assert(json_view(tm[0].1) == JsonData::Str(escape_body(namespace@)));
                    assert(json_view(tm[1].1) == JsonData::Str("pod/"@ + escape_body(pod_name@)));
                    assert(members_view(tm) =~= seq![
                        ("namespace"@, JsonData::Str(escape_body(namespace@))),
                        ("path"@, JsonData::Str("pod/"@ + escape_body(pod_name@))),
                    ]);
                    assert(json_view(target) == target_model);
                }
                let ghost kept_model = kept@;
                let mut merged = kept;
                merged.push((tk, target));
                proof {
                    assert(merged@.drop_last() =~= kept_model);
                    assert(merged@.last() == (tk, target));
                    assert(members_view(merged@) == members_view(merged@.drop_last()).push(
                        (merged@.last().0@, json_view(merged@.last().1)),
                    ));
                    assert(members_view(merged@) =~= merged_members(model, target_model));
                }
                let out = Json::Obj(merged);
                proof {
                    assert(json_view(out) == JsonData::Obj(
                        merged_members(model, target_model),
                    ));
                }
                let text = write_json(&out);
                Ok(chars_to_string(&text))
            },
            _ => Err(ConfigError::NotAnObject),
        },
    }
}

} // verus!
