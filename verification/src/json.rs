//! Structured-document handling: trusted bindings to the `serde_json`
//! decoder plus a verified repair scan that closes truncated documents.

use vstd::prelude::*;

verus! {

use vstd::string::StrSliceExecFns;
use vstd::string::StringExecFns;
use crate::schemas::FunctionCall;

/// Whether `serde_json::from_str::<Value>` accepts `s` as a document.
pub uninterp spec fn json_accepts(s: Seq<char>) -> bool;

/// The `action` and `action_input` string fields of the document `s`, if
/// `s` decodes to an object carrying both as strings.
pub uninterp spec fn agent_fields_of(s: Seq<char>) -> Option<(Seq<char>, Seq<char>)>;

/// The call batch held by the document `s`, if `s` decodes to an array of
/// objects each carrying a string `id` and a `function` object with string
/// `name` and `arguments`; each element is (id, name, arguments).
pub uninterp spec fn function_calls_of(s: Seq<char>) -> Option<
    Seq<(Seq<char>, Seq<char>, Seq<char>)>,
>;

/// The `tool_id` and `tools` string fields of the document `s`, if `s`
/// decodes to an object carrying both as strings.
pub uninterp spec fn log_tools_of(s: Seq<char>) -> Option<(Seq<char>, Seq<char>)>;

/// The document that encodes a call-batch trace: an object with string
/// fields `tool_id` and `tools`.
pub uninterp spec fn log_tools_doc(tool_id: Seq<char>, tools: Seq<char>) -> Seq<char>;

/// Relies on `serde_json::from_str::<Value>`: it accepts exactly the
/// well-formed JSON documents.
#[verifier::external_body]
pub(crate) fn json_is_valid(s: &str) -> (r: bool)
    ensures
        r == json_accepts(s@),
{
    serde_json::from_str::<serde_json::Value>(s).is_ok()
}

/// Relies on `serde_json::from_str::<Value>`, `Value::get` and
/// `Value::as_str`: decoding fails on an invalid document, and otherwise
/// hands out the `action` and `action_input` fields exactly when the
/// document's object holds both as strings.
#[verifier::external_body]
pub(crate) fn json_agent_fields(s: &str) -> (r: Option<(String, String)>)
    ensures
        match r {
            Some(p) => agent_fields_of(s@) == Some((p.0@, p.1@)),
            None => agent_fields_of(s@) is None,
        },
{
    let v: serde_json::Value = match serde_json::from_str(s) {
        Ok(v) => v,
        Err(_) => return None,
    };
    let action = v.get("action").and_then(serde_json::Value::as_str)?.to_string();
    let action_input = v.get("action_input").and_then(serde_json::Value::as_str)?.to_string();
    Some((action, action_input))
}

/// Relies on `serde_json::from_str::<Vec<Value>>`, `Value::get` and
/// `Value::as_str`: decoding fails unless `s` is an array of call objects,
/// and otherwise hands out each call's identifier, name and arguments.
#[verifier::external_body]
pub(crate) fn json_function_calls(s: &str) -> (r: Option<Vec<FunctionCall>>)
    ensures
        match r {
            Some(v) => function_calls_of(s@) == Some(v@.map_values(|c: FunctionCall| c@)),
            None => function_calls_of(s@) is None,
        },
{
    let vals: Vec<serde_json::Value> = match serde_json::from_str(s) {
        Ok(v) => v,
        Err(_) => return None,
    };
    vals.iter().map(
        |v: &serde_json::Value| Some(
            FunctionCall {
                id: v.get("id")?.as_str()?.to_string(),
                name: v.get("function")?.get("name")?.as_str()?.to_string(),
                arguments: v.get("function")?.get("arguments")?.as_str()?.to_string(),
            },
        ),
    ).collect()
}

/// Relies on `serde_json::from_str::<Value>`, `Value::get` and
/// `Value::as_str`: decoding fails on an invalid document, and otherwise
/// hands out the `tool_id` and `tools` fields exactly when the document's
/// object holds both as strings.
#[verifier::external_body]
pub(crate) fn json_log_tools(s: &str) -> (r: Option<(String, String)>)
    ensures
        match r {
            Some(p) => log_tools_of(s@) == Some((p.0@, p.1@)),
            None => log_tools_of(s@) is None,
        },
{
    let v: serde_json::Value = match serde_json::from_str(s) {
        Ok(v) => v,
        Err(_) => return None,
    };
    let tool_id = v.get("tool_id").and_then(serde_json::Value::as_str)?.to_string();
    let tools = v.get("tools").and_then(serde_json::Value::as_str)?.to_string();
    Some((tool_id, tools))
}

/// Relies on `serde_json::Map::insert`, `Value::to_string` and the decoder:
/// serialising an object of two strings yields a document that decodes back
/// to the same two strings.
#[verifier::external_body]
pub(crate) fn json_encode_log_tools(tool_id: &str, tools: &str) -> (r: String)
    ensures
        r@ == log_tools_doc(tool_id@, tools@),
        log_tools_of(r@) == Some((tool_id@, tools@)),
{
    let mut m = serde_json::Map::new();
    m.insert("tool_id".to_string(), serde_json::Value::String(tool_id.to_string()));
    m.insert("tools".to_string(), serde_json::Value::String(tools.to_string()));
    serde_json::Value::Object(m).to_string()
}

/// One pass of the repair scan over `s[i..]`: tracks whether the cursor is
/// inside a quoted string, whether the previous character started an escape,
/// and the stack of expected closing brackets. Yields the closers still
/// expected at the end of the text, or `None` when a closer mismatches the
/// stack or pops it empty.
pub open spec fn repair_scan(
    s: Seq<char>,
    i: int,
    inside: bool,
    escaped: bool,
    stack: Seq<char>,
) -> Option<Seq<char>>
    decreases s.len() - i,
{
    if i < 0 || i >= s.len() {
        Some(stack)
    } else {
        let c = s[i];
        if c == '"' && !escaped {
            repair_scan(s, i + 1, !inside, escaped, stack)
        } else if c == '{' && !inside {
            repair_scan(s, i + 1, inside, escaped, stack.push('}'))
        } else if c == '[' && !inside {
            repair_scan(s, i + 1, inside, escaped, stack.push(']'))
        } else if (c == '}' || c == ']') && !inside {
            if stack.len() > 0 && stack.last() == c {
                repair_scan(s, i + 1, inside, escaped, stack.drop_last())
            } else {
                None
            }
        } else if c == '\\' && inside {
            repair_scan(s, i + 1, inside, !escaped, stack)
        } else {
            repair_scan(s, i + 1, inside, false, stack)
        }
    }
}

/// The expected closers emitted in pop order: topmost first.
pub open spec fn closers(stack: Seq<char>) -> Seq<char>
    decreases stack.len(),
{
    if stack.len() == 0 {
        Seq::empty()
    } else {
        seq![stack.last()] + closers(stack.drop_last())
    }
}

/// The synthesized document: `s` followed by every closer still expected,
/// or `None` when the scan aborted.
pub open spec fn repaired_spec(s: Seq<char>) -> Option<Seq<char>> {
    match repair_scan(s, 0, false, false, Seq::empty()) {
        None => None,
        Some(stack) => Some(s + closers(stack)),
    }
}

/// The document that a partial parse of `s` works on: `s` itself when the
/// decoder accepts it; otherwise the synthesized repair when the decoder
/// accepts that; otherwise nothing. In strict mode no repair is attempted.
pub open spec fn partial_doc_spec(s: Seq<char>, strict: bool) -> Option<Seq<char>> {
    if json_accepts(s) {
        Some(s)
    } else if strict {
        None
    } else {
        match repaired_spec(s) {
            None => None,
            Some(t) => if json_accepts(t) {
                Some(t)
            } else {
                None
            },
        }
    }
}

/// Runs the repair scan over `s` and synthesizes a well-formed document by
/// appending the still-expected closers in pop order.
pub fn repair_json(s: &str) -> (r: Option<String>)
    ensures
        match r {
            Some(t) => repaired_spec(s@) == Some(t@),
            None => repaired_spec(s@) is None,
        },
{
    let n = s.unicode_len();
    let mut stack: Vec<char> = Vec::new();
    let mut inside = false;
    let mut escaped = false;
    let mut i: usize = 0;
    while i < n
        invariant
            0 <= i <= n,
            n == s@.len(),
            repair_scan(s@, 0, false, false, Seq::empty()) == repair_scan(
                s@,
                i as int,
                inside,
                escaped,
                stack@,
            ),
            forall|k: int| 0 <= k < stack@.len() ==> stack@[k] == '}' || stack@[k] == ']',
        decreases n - i,
    {
        let c = s.get_char(i);
        if c == '"' && !escaped {
            inside = !inside;
        } else if c == '{' && !inside {
            stack.push('}');
        } else if c == '[' && !inside {
            stack.push(']');
        } else if (c == '}' || c == ']') && !inside {
            let ok = match stack.pop() {
                Some(top) => top == c,
                None => false,
            };
            if !ok {
                return None;
            }
        } else if c == '\\' && inside {
            escaped = !escaped;
        } else {
            escaped = false;
        }
        i += 1;
    }
    let ghost stack0 = stack@;
    let mut out = String::from_str(s);
    proof {
        assert(out@ + closers(stack@) =~= s@ + closers(stack0));
    }
    while stack.len() > 0
        invariant
            out@ + closers(stack@) == s@ + closers(stack0),
            forall|k: int| 0 <= k < stack@.len() ==> stack@[k] == '}' || stack@[k] == ']',
        decreases stack@.len(),
    {
        let ghost pre = stack@;
        let c = stack.pop().unwrap();
        if c == '}' {
            out.append("}");
        } else {
            out.append("]");
        }
        proof {
            reveal_strlit("}");
            reveal_strlit("]");
            assert(closers(pre) =~= seq![c] + closers(stack@));
            assert(out@ + closers(stack@) =~= s@ + closers(stack0));
        }
    }
    proof {
        assert(closers(stack@) =~= Seq::<char>::empty());
        assert(out@ =~= s@ + closers(stack0));
    }
    Some(out)
}

/// Decodes `s` leniently: a direct strict decode first, then one repair
/// pass followed by a re-decode. Yields the accepted document.
pub fn parse_partial_json(s: &str, strict: bool) -> (r: Option<String>)
    ensures
        match r {
            Some(t) => partial_doc_spec(s@, strict) == Some(t@),
            None => partial_doc_spec(s@, strict) is None,
        },
{
    if json_is_valid(s) {
        return Some(String::from_str(s));
    }
    if strict {
        return None;
    }
    match repair_json(s) {
        None => None,
        Some(t) => {
            if json_is_valid(t.as_str()) {
                Some(t)
            } else {
                None
            }
        },
    }
}

} // verus!
