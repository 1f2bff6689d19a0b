use crate::text::chars_of;
use vstd::prelude::*;
use vstd::string::StrSliceExecFns;
use vstd::string::StringExecFns;

verus! {

/// One placeholder of a template and the text that takes its place.
pub struct Binding {
    /// The placeholder, written in the template as it stands here.
    pub token: String,
    /// The text put in place of each occurrence of the placeholder.
    pub value: String,
}

/// A binding as a pair of character sequences.
pub struct BindingView {
    pub token: Seq<char>,
    pub value: Seq<char>,
}

impl View for Binding {
    type V = BindingView;

    open spec fn view(&self) -> BindingView {
        BindingView { token: self.token@, value: self.value@ }
    }
}

/// The views of a list of bindings, in the same order.
pub open spec fn binding_views(bindings: Seq<Binding>) -> Seq<BindingView> {
    bindings.map_values(|b: Binding| b@)
}

/// Whether `token` is not empty and stands in `text` at position `at`.
pub open spec fn occurs_at(text: Seq<char>, at: int, token: Seq<char>) -> bool {
    &&& token.len() > 0
    &&& 0 <= at
    &&& at + token.len() <= text.len()
    &&& text.subrange(at, at + token.len()) == token
}

/// The index of the first binding, from index `from` on, whose token stands
/// in `text` at position `at`; the number of bindings if there is none.
pub open spec fn first_match(
    text: Seq<char>,
    at: int,
    bindings: Seq<BindingView>,
    from: int,
) -> int
    decreases bindings.len() - from,
{
    if from < 0 || from >= bindings.len() {
        bindings.len() as int
    } else if occurs_at(text, at, bindings[from].token) {
        from
    } else {
        first_match(text, at, bindings, from + 1)
    }
}

/// What becomes of `text` from position `at` on: read from left to right,
/// each occurrence of a token gives way to its value, and reading goes on
/// behind the occurrence, so that a value is never read again. Where several
/// tokens stand at one position the earliest binding wins. Everything else,
/// a token without a binding too, stays as it is.
pub open spec fn rendered_from(text: Seq<char>, at: int, bindings: Seq<BindingView>) -> Seq<char>
    decreases text.len() - at,
{
    if at < 0 || at >= text.len() {
        Seq::empty()
    } else {
        let k = first_match(text, at, bindings, 0);
        if 0 <= k < bindings.len() && occurs_at(text, at, bindings[k].token) {
            bindings[k].value + rendered_from(text, at + bindings[k].token.len(), bindings)
        } else {
            seq![text[at]] + rendered_from(text, at + 1, bindings)
        }
    }
}

/// The template `text` with each token replaced by its value.
pub open spec fn rendered(text: Seq<char>, bindings: Seq<BindingView>) -> Seq<char> {
    rendered_from(text, 0, bindings)
}

/// The template `text` with each occurrence of one `token` replaced by `value`.
pub open spec fn substituted(text: Seq<char>, token: Seq<char>, value: Seq<char>) -> Seq<char> {
    rendered(text, seq![BindingView { token, value }])
}

/// `first_match` returns an index in range whose token occurs, and no
/// earlier binding from `from` on has a token that occurs.
pub proof fn lemma_first_match(text: Seq<char>, at: int, bindings: Seq<BindingView>, from: int)
    requires
        0 <= from <= bindings.len(),
    ensures
        from <= first_match(text, at, bindings, from) <= bindings.len(),
        first_match(text, at, bindings, from) < bindings.len() ==> occurs_at(
            text,
            at,
            bindings[first_match(text, at, bindings, from)].token,
        ),
        forall|j: int|
            from <= j < first_match(text, at, bindings, from) ==> !occurs_at(
                text,
                at,
                #[trigger] bindings[j].token,
            ),
    decreases bindings.len() - from,
{
    if from < bindings.len() && !occurs_at(text, at, bindings[from].token) {
        lemma_first_match(text, at, bindings, from + 1);
    }
}

/// A template in which no token of the bindings occurs is rendered as itself.
pub proof fn lemma_rendered_without_tokens(text: Seq<char>, at: int, bindings: Seq<BindingView>)
    requires
        0 <= at <= text.len(),
        forall|p: int, j: int|
            0 <= p < text.len() && 0 <= j < bindings.len() ==> !#[trigger] occurs_at(
                text,
                p,
                bindings[j].token,
            ),
    ensures
        rendered_from(text, at, bindings) == text.skip(at),
    decreases text.len() - at,
{
    if at < text.len() {
        lemma_first_match(text, at, bindings, 0);
        lemma_rendered_without_tokens(text, at + 1, bindings);
        assert(text.skip(at) =~= seq![text[at]] + text.skip(at + 1));
    } else {
        assert(text.skip(at) =~= Seq::<char>::empty());
    }
}

/// Whether `token` is not empty and stands in `text` at position `at`.
fn token_at(text: &Vec<char>, at: usize, token: &Vec<char>) -> (r: bool)
    requires
        at <= text.len(),
    ensures
        r == occurs_at(text@, at as int, token@),
{
    let n = token.len();
    if n == 0 || n > text.len() - at {
        return false;
    }
    let mut i: usize = 0;
    while i < n
        invariant
            0 < n <= text.len() - at,
            n == token.len(),
            i <= n,
            text@.subrange(at as int, at + i) == token@.take(i as int),
        decreases n - i,
    {
        if text[at + i] != token[i] {
            assert(text@.subrange(at as int, at + n)[i as int] != token@[i as int]);
            return false;
        }
        i += 1;
        assert(text@.subrange(at as int, at + i) =~= text@.subrange(at as int, at + i - 1).push(
            text@[at + i - 1],
        ));
        assert(token@.take(i as int) =~= token@.take(i - 1).push(token@[i - 1]));
    }
    assert(token@.take(n as int) =~= token@);
    true
}

/// The character sequences of the tokens of `bindings`.
fn token_chars(bindings: &Vec<Binding>) -> (tokens: Vec<Vec<char>>)
    ensures
        tokens.len() == bindings.len(),
        forall|k: int| 0 <= k < tokens.len() ==> (#[trigger] tokens[k])@ == bindings[k].token@,
{
    let mut tokens: Vec<Vec<char>> = Vec::new();
    let mut k: usize = 0;
    while k < bindings.len()
        invariant
            k <= bindings.len(),
            tokens.len() == k,
            forall|j: int| 0 <= j < k ==> (#[trigger] tokens[j])@ == bindings[j].token@,
        decreases bindings.len() - k,
    {
        tokens.push(chars_of(bindings[k].token.as_str()));
        k += 1;
    }
    tokens
}

/// The index of the first binding whose token stands in `text` at `at`.
fn find_match(text: &Vec<char>, at: usize, tokens: &Vec<Vec<char>>, Ghost(bindings): Ghost<
    Seq<BindingView>,
>) -> (k: usize)
    requires
        at <= text.len(),
        tokens.len() == bindings.len(),
        forall|j: int| 0 <= j < tokens.len() ==> (#[trigger] tokens[j])@ == bindings[j].token,
    ensures
        k == first_match(text@, at as int, bindings, 0),
{
    let mut k: usize = 0;
    while k < tokens.len()
        invariant
            at <= text.len(),
            k <= tokens.len(),
            tokens.len() == bindings.len(),
            forall|j: int| 0 <= j < tokens.len() ==> (#[trigger] tokens[j])@ == bindings[j].token,
            first_match(text@, at as int, bindings, 0) == first_match(
                text@,
                at as int,
                bindings,
                k as int,
            ),
        decreases tokens.len() - k,
    {
        if token_at(text, at, &tokens[k]) {
            return k;
        }
        k += 1;
    }
    k
}

/// Renders a template: reads `template` once from left to right and puts,
/// in place of each occurrence of a token, the value bound to it. A binding
/// with an empty token has no effect.
pub fn render(template: &str, bindings: &Vec<Binding>) -> (out: String)
    ensures
        out@ == rendered(template@, binding_views(bindings@)),
{
    let text = chars_of(template);
    let tokens = token_chars(bindings);
    let ghost views = binding_views(bindings@);
    let n = text.len();
    let mut out = String::new();
    let mut copied: usize = 0;
    let mut at: usize = 0;
    while at < n
        invariant
            text@ == template@,
            n == text.len(),
            copied <= at <= n,
            views == binding_views(bindings@),
            tokens.len() == bindings.len(),
            forall|j: int| 0 <= j < tokens.len() ==> (#[trigger] tokens[j])@ == views[j].token,
            out@ + text@.subrange(copied as int, at as int) + rendered_from(
                text@,
                at as int,
                views,
            ) == rendered(text@, views),
        decreases n - at,
    {
        let k = find_match(&text, at, &tokens, Ghost(views));
        proof {
            lemma_first_match(text@, at as int, views, 0);
        }
        if k < tokens.len() {
            let ghost before = out@;
            out.append(template.substring_char(copied, at));
            out.append(bindings[k].value.as_str());
            assert(out@ =~= before + text@.subrange(copied as int, at as int) + views[k as int].value);
            at = at + tokens[k].len();
            copied = at;
            assert(text@.subrange(copied as int, at as int) =~= Seq::<char>::empty());
            assert(out@ + text@.subrange(copied as int, at as int) + rendered_from(
                text@,
                at as int,
                views,
            ) =~= rendered(text@, views));
        } else {
            assert(text@.subrange(copied as int, at + 1) =~= text@.subrange(
                copied as int,
                at as int,
            ) + seq![text@[at as int]]);
            at = at + 1;
            assert(out@ + text@.subrange(copied as int, at as int) + rendered_from(
                text@,
                at as int,
                views,
            ) =~= rendered(text@, views));
        }
    }
    let ghost before = out@;
    out.append(template.substring_char(copied, n));
    assert(out@ =~= before + text@.subrange(copied as int, n as int) + rendered_from(
        text@,
        n as int,
        views,
    ));
    out
}

/// Replaces each occurrence of `token` in `template` by `value`.
pub fn substitute(template: &str, token: &str, value: &str) -> (out: String)
    ensures
        out@ == substituted(template@, token@, value@),
{
    let mut bindings: Vec<Binding> = Vec::new();
    bindings.push(Binding { token: String::from_str(token), value: String::from_str(value) });
    assert(binding_views(bindings@) =~= seq![BindingView { token: token@, value: value@ }]);
    render(template, &bindings)
}

} // verus!
