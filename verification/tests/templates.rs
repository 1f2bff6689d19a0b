use simpleblog::template::{render, substitute, Binding};
use simpleblog::text::{chars_of, push_decimal};

fn bind(token: &str, value: &str) -> Binding {
    Binding { token: token.to_string(), value: value.to_string() }
}

#[test]
fn substitute_replaces_every_occurrence() {
    assert_eq!(substitute("<p>{x}</p><p>{x}</p>", "{x}", "hi"), "<p>hi</p><p>hi</p>");
}

#[test]
fn substitute_agrees_with_replace() {
    let cases = [
        ("", "{a}", "v"),
        ("{a}", "{a}", ""),
        ("aaa", "aa", "b"),
        ("{a}{a}{", "{a}", "{a}{a}"),
        ("xx{latest_article}yy", "{latest_article}", "<div>é</div>"),
        ("日本語{t}日本語", "{t}", "本"),
        ("no token here", "{t}", "v"),
        ("{t", "{t}", "v"),
    ];
    for (template, token, value) in cases {
        assert_eq!(substitute(template, token, value), template.replace(token, value));
    }
}

#[test]
fn substitute_leaves_a_template_without_the_token() {
    assert_eq!(substitute("<h1>{title}</h1>", "{body}", "x"), "<h1>{title}</h1>");
}

#[test]
fn substitute_does_not_read_a_value_again() {
    assert_eq!(substitute("[{x}]", "{x}", "{x}{x}"), "[{x}{x}]");
}

#[test]
fn substitute_with_an_empty_token_changes_nothing() {
    assert_eq!(substitute("abc", "", "-"), "abc");
}

#[test]
fn render_replaces_each_token_by_its_value() {
    let bindings = vec![bind("{articles}", "<ul></ul>"), bind("{links}", "<nav></nav>")];
    assert_eq!(
        render("<body>{articles}<hr>{links}{articles}</body>", &bindings),
        "<body><ul></ul><hr><nav></nav><ul></ul></body>"
    );
}

#[test]
fn render_does_not_expand_a_token_inside_a_value() {
    let bindings = vec![bind("{articles}", "see {links}"), bind("{links}", "L")];
    assert_eq!(render("{articles}|{links}", &bindings), "see {links}|L");
}

#[test]
fn render_leaves_unbound_tokens() {
    let bindings = vec![bind("{a}", "1")];
    assert_eq!(render("{a}{b}{c}", &bindings), "1{b}{c}");
}

#[test]
fn render_without_bindings_is_the_template() {
    assert_eq!(render("{a} and {b}", &Vec::new()), "{a} and {b}");
}

#[test]
fn render_prefers_the_earlier_binding() {
    let bindings = vec![bind("{a", "1"), bind("{a}", "2")];
    assert_eq!(render("{a}", &bindings), "1}");
    let bindings = vec![bind("{a}", "2"), bind("{a", "1")];
    assert_eq!(render("{a}{a", &bindings), "21");
}

#[test]
fn render_of_an_empty_template_is_empty() {
    assert_eq!(render("", &vec![bind("{a}", "1")]), "");
}

#[test]
fn chars_of_gives_the_characters() {
    assert_eq!(chars_of("aé日"), vec!['a', 'é', '日']);
    assert!(chars_of("").is_empty());
}

#[test]
fn push_decimal_writes_numerals() {
    for n in [0u16, 1, 9, 10, 11, 99, 100, 101, 6553, 9999, 10000, 65535] {
        let mut out = String::from("n=");
        push_decimal(&mut out, n);
        assert_eq!(out, format!("n={}", n));
    }
}
