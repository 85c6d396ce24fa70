//! URL templates and how the parameters of a call are put into them.
//!
//! A template is plain text with placeholders: `{}` takes the next argument
//! in the order of declaration, `{name}` takes the argument of the declared
//! parameter `name`. `{{` and `}}` stand for one literal brace. Arguments are
//! inserted as they are given: nothing is escaped.

use vstd::prelude::*;

verus! {

/// The first index at or after `from` at which `items` holds `wanted`, or the
/// length of `items` where there is none.
pub open spec fn find_from<T>(items: Seq<T>, wanted: T, from: int) -> int
    decreases items.len() - from,
{
    if from < 0 || from >= items.len() {
        items.len() as int
    } else if items[from] == wanted {
        from
    } else {
        find_from(items, wanted, from + 1)
    }
}

/// `prefix` followed by `rest`, where there is a `rest`.
pub open spec fn join(prefix: Seq<char>, rest: Option<Seq<char>>) -> Option<Seq<char>> {
    match rest {
        Some(text) => Some(prefix + text),
        None => None,
    }
}

/// The text that `template` stands for when the declared parameters `names`
/// have the arguments `values`, `used` of them taken by `{}` so far; `None`
/// where the template is malformed (a brace that is neither doubled nor part
/// of a placeholder) or asks for an argument that was not declared or given.
pub open spec fn resolve(
    template: Seq<char>,
    names: Seq<Seq<char>>,
    values: Seq<Seq<char>>,
    used: int,
) -> Option<Seq<char>>
    decreases template.len(),
{
    if template.len() == 0 {
        Some(Seq::empty())
    } else if template[0] == '{' {
        if template.len() >= 2 && template[1] == '{' {
            join(seq!['{'], resolve(template.skip(2), names, values, used))
        } else {
            let close = find_from(template, '}', 1);
            if close < 1 || close >= template.len() {
                None
            } else {
                let name = template.subrange(1, close);
                let rest = template.skip(close + 1);
                if name.len() == 0 {
                    if 0 <= used < values.len() {
                        join(values[used], resolve(rest, names, values, used + 1))
                    } else {
                        None
                    }
                } else {
                    let at = find_from(names, name, 0);
                    if 0 <= at < names.len() && at < values.len() {
                        join(values[at], resolve(rest, names, values, used))
                    } else {
                        None
                    }
                }
            }
        }
    } else if template[0] == '}' {
        if template.len() >= 2 && template[1] == '}' {
            join(seq!['}'], resolve(template.skip(2), names, values, used))
        } else {
            None
        }
    } else {
        join(seq![template[0]], resolve(template.skip(1), names, values, used))
    }
}

/// The texts that a list of strings holds.
pub open spec fn texts(items: Seq<String>) -> Seq<Seq<char>> {
    items.map_values(|item: String| item@)
}

/// Searching a tail of a sequence is searching the sequence further on.
pub proof fn lemma_find_from_skip<T>(items: Seq<T>, wanted: T, start: int, from: int)
    requires
        0 <= start <= items.len(),
        0 <= from,
    ensures
        find_from(items.skip(start), wanted, from) == find_from(items, wanted, start + from)
            - start,
    decreases items.len() - start - from,
{
    if from < items.len() - start {
        if items.skip(start)[from] != wanted {
            lemma_find_from_skip(items, wanted, start, from + 1);
        }
    }
}

/// A template without braces stands for itself, whatever the arguments.
pub proof fn lemma_resolve_plain(
    template: Seq<char>,
    names: Seq<Seq<char>>,
    values: Seq<Seq<char>>,
    used: int,
    plain: int,
)
    requires
        0 <= plain <= template.len(),
        forall|i: int| 0 <= i < plain ==> template[i] != '{' && template[i] != '}',
    ensures
        resolve(template, names, values, used) == join(
            template.take(plain),
            resolve(template.skip(plain), names, values, used),
        ),
    decreases plain,
{
    let tail = resolve(template.skip(plain), names, values, used);
    if plain == 0 {
        assert(template.skip(0) =~= template);
        assert(template.take(0) =~= Seq::<char>::empty());
        if tail is Some {
            assert(template.take(0) + tail->0 =~= tail->0);
        }
    } else {
        let rest = template.skip(1);
        assert forall|i: int| 0 <= i < plain - 1 implies rest[i] != '{' && rest[i] != '}' by {
            assert(rest[i] == template[i + 1]);
        }
        lemma_resolve_plain(rest, names, values, used, plain - 1);
        assert(rest.skip(plain - 1) =~= template.skip(plain));
        if tail is Some {
            assert(seq![template[0]] + (rest.take(plain - 1) + tail->0) =~= template.take(plain)
                + tail->0);
        }
    }
}

/// The position of the first of `names` that equals `name`, or the number of
/// names where none does.
pub fn position(names: &Vec<String>, name: &str) -> (at: usize)
    ensures
        at == find_from(texts(names@), name@, 0),
{
    let wanted = String::from_str(name);
    let mut i: usize = 0;
    while i < names.len()
        invariant
            i <= names.len(),
            texts(names@).len() == names.len(),
            wanted@ == name@,
            find_from(texts(names@), name@, 0) == find_from(texts(names@), name@, i as int),
        decreases names.len() - i,
    {
        assert(texts(names@)[i as int] == names@[i as int]@);
        if names[i] == wanted {
            return i;
        }
        i += 1;
    }
    i
}

/// The index of the first `}` of `template` at or after `from`, or the number
/// of characters of `template` where there is none.
pub fn closing_brace(template: &str, from: usize) -> (close: usize)
    requires
        from <= template@.len(),
    ensures
        close == find_from(template@, '}', from as int),
        from <= close <= template@.len(),
{
    let len = template.unicode_len();
    let mut i: usize = from;
    while i < len
        invariant
            from <= i <= len,
            len == template@.len(),
            find_from(template@, '}', from as int) == find_from(template@, '}', i as int),
        decreases len - i,
    {
        if template.get_char(i) == '}' {
            return i;
        }
        i += 1;
    }
    i
}

/// Puts the arguments `values` of the declared parameters `names` into
/// `template`.
pub fn resolve_template(template: &str, names: &Vec<String>, values: &Vec<String>) -> (path:
    Option<String>)
    ensures
        match path {
            Some(text) => resolve(template@, texts(names@), texts(values@), 0) == Some(text@),
            None => resolve(template@, texts(names@), texts(values@), 0) is None,
        },
{
    let ghost whole = resolve(template@, texts(names@), texts(values@), 0);
    let len = template.unicode_len();
    let mut out = String::new();
    let mut used: usize = 0;
    let mut i: usize = 0;
    proof {
        assert(template@.skip(0) =~= template@);
        if whole is Some {
            assert(out@ + whole->0 =~= whole->0);
        }
    }
    while i < len
        invariant
            i <= len,
            len == template@.len(),
            used <= i,
            texts(values@).len() == values.len(),
            texts(names@).len() == names.len(),
            whole == resolve(template@, texts(names@), texts(values@), 0),
            whole == join(
                out@,
                resolve(template@.skip(i as int), texts(names@), texts(values@), used as int),
            ),
        decreases len - i,
    {
        let ghost tail = template@.skip(i as int);
        let ghost before = out@;
        let c = template.get_char(i);
        proof {
            assert(tail[0] == c);
            assert(tail.len() == len - i);
        }
        if c == '{' {
            if i + 1 < len && template.get_char(i + 1) == '{' {
                out.append("{");
                proof {
                    reveal_strlit("{");
                    assert("{"@ =~= seq!['{']);
                    assert(tail[1] == '{');
                    assert(tail.skip(2) =~= template@.skip(i + 2));
                    lemma_join_join(before, seq!['{'], resolve(template@.skip(i + 2), texts(names@), texts(values@), used as int));
                }
                i += 2;
            } else {
                let close = closing_brace(template, i + 1);
                proof {
                    lemma_find_from_skip(template@, '}', i as int, 1);
                    assert(tail.subrange(1, close - i) =~= template@.subrange(i + 1, close as int));
                    if close < len {
                        assert(tail.skip(close - i + 1) =~= template@.skip(close + 1));
                    }
                }
                if close >= len {
                    return None;
                }
                let name = template.substring_char(i + 1, close);
                let at = if close == i + 1 {
                    used
                } else {
                    position(names, name)
                };
                if at >= values.len() || (close > i + 1 && at >= names.len()) {
                    return None;
                }
                out.append(values[at].as_str());
                proof {
                    assert(texts(values@)[at as int] == values@[at as int]@);
                    lemma_join_join(
                        before,
                        values@[at as int]@,
                        resolve(
                            template@.skip(close + 1),
                            texts(names@),
                            texts(values@),
                            if close == i + 1 {
                                used + 1
                            } else {
                                used as int
                            },
                        ),
                    );
                }
                if close == i + 1 {
                    used += 1;
                }
                i = close + 1;
            }
        } else if c == '}' {
            if i + 1 < len && template.get_char(i + 1) == '}' {
                out.append("}");
                proof {
                    reveal_strlit("}");
                    assert("}"@ =~= seq!['}']);
                    assert(tail[1] == '}');
                    assert(tail.skip(2) =~= template@.skip(i + 2));
                    lemma_join_join(before, seq!['}'], resolve(template@.skip(i + 2), texts(names@), texts(values@), used as int));
                }
                i += 2;
            } else {
                return None;
            }
        } else {
            out.append(template.substring_char(i, i + 1));
            proof {
                assert(template@.subrange(i as int, i + 1) =~= seq![c]);
                assert(tail.skip(1) =~= template@.skip(i + 1));
                lemma_join_join(before, seq![c], resolve(template@.skip(i + 1), texts(names@), texts(values@), used as int));
            }
            i += 1;
        }
    }
    proof {
        assert(template@.skip(i as int).len() == 0);
        assert(out@ + Seq::<char>::empty() =~= out@);
    }
    Some(out)
}

/// Joining in two steps is joining the two prefixes at once.
pub proof fn lemma_join_join(first: Seq<char>, second: Seq<char>, rest: Option<Seq<char>>)
    ensures
        join(first, join(second, rest)) == join(first + second, rest),
{
    if rest is Some {
        assert(first + (second + rest->0) =~= (first + second) + rest->0);
    }
}

} // verus!
