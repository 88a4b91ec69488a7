use vstd::prelude::*;

verus! {

/// `s` with every occurrence of `pat` replaced by `rep`, scanning from the
/// left and never reusing characters of an earlier match.
pub open spec fn replaced(s: Seq<char>, pat: Seq<char>, rep: Seq<char>) -> Seq<char>
    decreases s.len(),
{
    if pat.len() == 0 || s.len() < pat.len() {
        s
    } else if s.take(pat.len() as int) == pat {
        rep + replaced(s.skip(pat.len() as int), pat, rep)
    } else {
        seq![s[0]] + replaced(s.skip(1), pat, rep)
    }
}

/// The placeholder for the call site, written in two pieces: the whole word
/// is the name of a std macro.
pub open spec fn call_site_placeholder() -> Seq<char> {
    "{module"@ + "_path}"@
}

/// A template with its timestamp, call site and message placeholders filled
/// in, in that order.
pub open spec fn base_line(
    template: Seq<char>,
    timestamp: Seq<char>,
    call_site: Seq<char>,
    message: Seq<char>,
) -> Seq<char> {
    replaced(
        replaced(replaced(template, "{timestamp}"@, timestamp), call_site_placeholder(), call_site),
        "{message}"@,
        message,
    )
}

/// A line with its `{level}` placeholders filled in.
pub open spec fn with_level(line: Seq<char>, level_text: Seq<char>) -> Seq<char> {
    replaced(line, "{level}"@, level_text)
}

/// One key/value pair rendered through the per-pair template.
pub open spec fn pair_fragment(pair_template: Seq<char>, key: Seq<char>, value: Seq<char>) -> Seq<
    char,
> {
    replaced(replaced(pair_template, "{key}"@, key), "{value}"@, value)
}

/// The fragments of all pairs, concatenated in the order of the pairs.
pub open spec fn pair_fragments(pair_template: Seq<char>, pairs: Seq<(String, String)>) -> Seq<
    char,
>
    decreases pairs.len(),
{
    if pairs.len() == 0 {
        Seq::empty()
    } else {
        pair_fragments(pair_template, pairs.drop_last()) + pair_fragment(
            pair_template,
            pairs.last().0@,
            pairs.last().1@,
        )
    }
}

proof fn lemma_replaced_match(s: Seq<char>, i: int, pat: Seq<char>, rep: Seq<char>)
    requires
        pat.len() > 0,
        0 <= i,
        i + pat.len() <= s.len(),
        s.subrange(i, i + pat.len()) == pat,
    ensures
        replaced(s.skip(i), pat, rep) == rep + replaced(s.skip(i + pat.len()), pat, rep),
{
    assert(s.skip(i).take(pat.len() as int) =~= s.subrange(i, i + pat.len()));
    assert(s.skip(i).skip(pat.len() as int) =~= s.skip(i + pat.len()));
}

proof fn lemma_replaced_miss(s: Seq<char>, i: int, pat: Seq<char>, rep: Seq<char>)
    requires
        pat.len() > 0,
        0 <= i,
        i + pat.len() <= s.len(),
        s.subrange(i, i + pat.len()) != pat,
    ensures
        replaced(s.skip(i), pat, rep) == seq![s[i]] + replaced(s.skip(i + 1), pat, rep),
{
    assert(s.skip(i).take(pat.len() as int) =~= s.subrange(i, i + pat.len()));
    assert(s.skip(i).skip(1) =~= s.skip(i + 1));
}

/// Whether `s` holds no opening brace, and so no placeholder.
pub open spec fn brace_free(s: Seq<char>) -> bool {
    !s.contains('{')
}

/// A prefix without an opening brace holds no match of a placeholder and
/// cannot start one: replacing leaves it as it is.
pub proof fn lemma_brace_free_prefix(x: Seq<char>, z: Seq<char>, pat: Seq<char>, rep: Seq<char>)
    requires
        pat.len() > 0,
        pat[0] == '{',
        brace_free(x),
    ensures
        replaced(x + z, pat, rep) == x + replaced(z, pat, rep),
    decreases x.len(),
{
    let s = x + z;
    if x.len() == 0 {
        assert(s =~= z);
    } else {
        assert(x[0] != '{') by {
            if x[0] == '{' {
                assert(x.contains('{'));
            }
        }
        assert(brace_free(x.skip(1))) by {
            if x.skip(1).contains('{') {
                let k = choose|k: int| 0 <= k < x.skip(1).len() && x.skip(1)[k] == '{';
                assert(x[k + 1] == '{');
                assert(x.contains('{'));
            }
        }
        lemma_brace_free_prefix(x.skip(1), z, pat, rep);
        assert(s.skip(1) =~= x.skip(1) + z);
        if s.len() >= pat.len() {
            assert(s.take(pat.len() as int)[0] == x[0]);
            assert(s.take(pat.len() as int) != pat);
            assert(seq![s[0]] + (x.skip(1) + replaced(z, pat, rep)) =~= x + replaced(z, pat, rep));
        }
    }
}

/// Text without an opening brace is left as it is by every replacement of a
/// placeholder.
pub proof fn lemma_brace_free_kept(x: Seq<char>, pat: Seq<char>, rep: Seq<char>)
    requires
        pat.len() > 0,
        pat[0] == '{',
        brace_free(x),
    ensures
        replaced(x, pat, rep) == x,
{
    lemma_brace_free_prefix(x, Seq::empty(), pat, rep);
    assert(x + Seq::<char>::empty() =~= x);
    assert(x + replaced(Seq::<char>::empty(), pat, rep) =~= x);
}

/// A `{message}` placeholder followed by brace-free text survives the
/// replacement of any placeholder that differs from it in its first three
/// characters.
proof fn lemma_message_token_kept(y: Seq<char>, pat: Seq<char>, rep: Seq<char>)
    requires
        brace_free(y),
        pat.len() >= 3,
        pat[0] == '{',
        pat[1] != 'm' || pat[2] != 'e',
    ensures
        replaced("{message}"@ + y, pat, rep) == "{message}"@ + y,
{
    reveal_strlit("{message}");
    reveal_strlit("message}");
    let s = "{message}"@ + y;
    if s.len() >= pat.len() {
        assert(s.take(pat.len() as int)[1] == 'm');
        assert(s.take(pat.len() as int)[2] == 'e');
        assert(s.take(pat.len() as int) != pat);
        assert(s.skip(1) =~= "message}"@ + y);
        assert(!"message}"@.contains('{')) by {
            if "message}"@.contains('{') {
                let k = choose|k: int| 0 <= k < "message}"@.len() && "message}"@[k] == '{';
            }
        }
        lemma_brace_free_prefix("message}"@, y, pat, rep);
        lemma_brace_free_kept(y, pat, rep);
        assert(seq![s[0]] + ("message}"@ + y) =~= s);
    }
}

/// A template whose only placeholder is one `{message}` becomes, once its
/// placeholders are filled, the template with `message` in place of it, as
/// long as `message` holds no opening brace either.
pub proof fn lemma_single_message_template(
    before: Seq<char>,
    after: Seq<char>,
    timestamp: Seq<char>,
    call_site: Seq<char>,
    message: Seq<char>,
    level_text: Seq<char>,
)
    requires
        brace_free(before),
        brace_free(after),
        brace_free(message),
    ensures
        with_level(
            base_line(before + "{message}"@ + after, timestamp, call_site, message),
            level_text,
        ) == before + message + after,
{
    reveal_strlit("{message}");
    reveal_strlit("{timestamp}");
    reveal_strlit("{module");
    reveal_strlit("_path}");
    reveal_strlit("{level}");
    let t = before + "{message}"@ + after;
    assert(t =~= before + ("{message}"@ + after));
    lemma_message_token_kept(after, "{timestamp}"@, timestamp);
    lemma_brace_free_prefix(before, "{message}"@ + after, "{timestamp}"@, timestamp);
    lemma_message_token_kept(after, call_site_placeholder(), call_site);
    lemma_brace_free_prefix(before, "{message}"@ + after, call_site_placeholder(), call_site);
    let u = "{message}"@ + after;
    assert(u.take(9) =~= "{message}"@);
    assert(u.skip(9) =~= after);
    lemma_brace_free_kept(after, "{message}"@, message);
    lemma_brace_free_prefix(before, u, "{message}"@, message);
    let filled = before + message + after;
    assert(brace_free(filled)) by {
        if filled.contains('{') {
            let k = choose|k: int| 0 <= k < filled.len() && filled[k] == '{';
            if k < before.len() {
                assert(before.contains('{'));
            } else if k < before.len() + message.len() {
                assert(message[k - before.len()] == '{');
                assert(message.contains('{'));
            } else {
                assert(after[k - before.len() - message.len()] == '{');
                assert(after.contains('{'));
            }
        }
    }
    assert(before + (message + after) =~= filled);
    lemma_brace_free_kept(filled, "{level}"@, level_text);
}

/// The characters of `s`, one element each.
fn chars_of(s: &str) -> (r: Vec<char>)
    ensures
        r@ == s@,
{
    let mut out: Vec<char> = Vec::new();
    for c in it: s.chars()
        invariant
            it.seq() == s@,
            out@ == it.seq().take(it.index() as int),
    {
        out.push(c);
        assert(out@ =~= it.seq().take(it.index() + 1));
    }
    assert(out@ =~= s@);
    out
}

/// Whether `pat` occurs in `s` at position `at`.
fn occurs_at(s: &Vec<char>, at: usize, pat: &Vec<char>) -> (r: bool)
    requires
        at + pat.len() <= s.len(),
    ensures
        r == (s@.subrange(at as int, at + pat@.len()) == pat@),
{
    let mut j: usize = 0;
    while j < pat.len()
        invariant
            at + pat.len() <= s.len(),
            j <= pat@.len(),
            forall|k: int| 0 <= k < j ==> s@[at + k] == pat@[k],
        decreases pat@.len() - j,
    {
        if s[at + j] != pat[j] {
            assert(s@.subrange(at as int, at + pat@.len())[j as int] != pat@[j as int]);
            return false;
        }
        j = j + 1;
    }
    assert(s@.subrange(at as int, at + pat@.len()) =~= pat@);
    true
}

/// `s` with every occurrence of `pat` replaced by `rep`, scanning from the left.
pub fn replace_all(s: &str, pat: &str, rep: &str) -> (r: String)
    requires
        pat@.len() > 0,
    ensures
        r@ == replaced(s@, pat@, rep@),
{
    let cs = chars_of(s);
    let ps = chars_of(pat);
    let n = cs.len();
    let m = ps.len();
    let mut out = String::new();
    let mut seg: usize = 0;
    let mut i: usize = 0;
    assert(s@.skip(0) =~= s@);
    while m <= n - i
        invariant
            cs@ == s@,
            ps@ == pat@,
            n == s@.len(),
            m == pat@.len(),
            m > 0,
            seg <= i <= n,
            out@ + s@.subrange(seg as int, i as int) + replaced(s@.skip(i as int), pat@, rep@)
                == replaced(s@, pat@, rep@),
        decreases n - i,
    {
        if occurs_at(&cs, i, &ps) {
            proof {
                lemma_replaced_match(s@, i as int, pat@, rep@);
            }
            let piece = s.substring_char(seg, i);
            out.append(piece);
            out.append(rep);
            i = i + m;
            seg = i;
            assert(s@.subrange(seg as int, i as int) =~= Seq::<char>::empty());
        } else {
            proof {
                lemma_replaced_miss(s@, i as int, pat@, rep@);
                assert(s@.subrange(seg as int, i as int) + seq![s@[i as int]] =~= s@.subrange(
                    seg as int,
                    i + 1,
                ));
            }
            i = i + 1;
        }
    }
    assert(replaced(s@.skip(i as int), pat@, rep@) == s@.skip(i as int));
    assert(s@.subrange(seg as int, i as int) + s@.skip(i as int) =~= s@.subrange(
        seg as int,
        n as int,
    ));
    let rest = s.substring_char(seg, n);
    out.append(rest);
    out
}

/// The call-site placeholder as a string.
fn call_site_token() -> (r: String)
    ensures
        r@ == call_site_placeholder(),
{
    proof {
        reveal_strlit("{module");
        reveal_strlit("_path}");
    }
    String::from_str("{module").concat("_path}")
}

/// Fills the timestamp, call site and message placeholders of `template`.
pub fn fill_base(template: &str, timestamp: &str, call_site: &str, message: &str) -> (r: String)
    ensures
        r@ == base_line(template@, timestamp@, call_site@, message@),
{
    proof {
        reveal_strlit("{timestamp}");
        reveal_strlit("{message}");
        reveal_strlit("{module");
        reveal_strlit("_path}");
    }
    let token = call_site_token();
    let a = replace_all(template, "{timestamp}", timestamp);
    let b = replace_all(a.as_str(), token.as_str(), call_site);
    replace_all(b.as_str(), "{message}", message)
}

/// Fills the `{level}` placeholders of `line` with `level_text`.
pub fn fill_level(line: &str, level_text: &str) -> (r: String)
    ensures
        r@ == with_level(line@, level_text@),
{
    proof {
        reveal_strlit("{level}");
    }
    replace_all(line, "{level}", level_text)
}

/// Renders one key/value pair through the per-pair template.
pub fn fill_pair(pair_template: &str, key: &str, value: &str) -> (r: String)
    ensures
        r@ == pair_fragment(pair_template@, key@, value@),
{
    proof {
        reveal_strlit("{key}");
        reveal_strlit("{value}");
    }
    let a = replace_all(pair_template, "{key}", key);
    replace_all(a.as_str(), "{value}", value)
}

/// Renders every pair through the per-pair template and appends the
/// fragments to `line`, in the order of `pairs`.
pub fn append_pairs(line: &mut String, pair_template: &str, pairs: &Vec<(String, String)>)
    ensures
        final(line)@ == old(line)@ + pair_fragments(pair_template@, pairs@),
{
    let mut i: usize = 0;
    while i < pairs.len()
        invariant
            i <= pairs@.len(),
            line@ == old(line)@ + pair_fragments(pair_template@, pairs@.take(i as int)),
        decreases pairs@.len() - i,
    {
        let frag = fill_pair(pair_template, pairs[i].0.as_str(), pairs[i].1.as_str());
        line.append(frag.as_str());
        proof {
            let t = pairs@.take(i + 1);
            assert(t.drop_last() =~= pairs@.take(i as int));
            assert(t.last() == pairs@[i as int]);
        }
        i = i + 1;
    }
    assert(pairs@.take(pairs@.len() as int) =~= pairs@);
}

} // verus!
