use femark::{process_markdown_to_html, write_code_escaped, HTMLOutput};

#[test]
fn test_write_code_escaped() {
    let mut out = String::new();
    write_code_escaped(&mut out, "The Vec<u8> type");
    assert_eq!(&out, "The Vec&lt;u8&gt; type");

    out.clear();
    write_code_escaped(&mut out, "ParseResult<&str> Or Result<Vec<_>> && false");
    assert_eq!(
        &out,
        "ParseResult&lt;&amp;str&gt; Or Result&lt;Vec&lt;_&gt;&gt; &amp;&amp; false"
    );
}

#[test]
fn test_basic_highlighting() {
    let input = r#"```html
        <main class="potato">Hello World</main>
        ```"#;
    let HTMLOutput { content, .. } = process_markdown_to_html(input).unwrap();
    assert_eq!(content,"<div class=\"code-block\"><div class=\"language-tag\">HTML</div><pre class=\"code-block-inner\" data-lang=\"html\">        <i class=hh8>&lt;</i><i class=hh12>main</i> <i class=hh0>class</i>=\"<i class=hh10>potato</i>\"<i class=hh8>&gt;</i>Hello World<i class=hh8>&lt;/</i><i class=hh12>main</i><i class=hh8>&gt;</i>\n        ```</pre></div>");
}

#[test]
fn test_ts_highlighting() {
    let input = r#"```ts
       const user = {
  firstName: "Angela",
  lastName: "Davis",
  role: "Professor",
}

console.log(user.name)
        ```"#;
    let HTMLOutput { content, .. } = process_markdown_to_html(input).unwrap();
    assert_eq!(content,"<div class=\"code-block\"><div class=\"language-tag\">TypeScript code</div><pre class=\"code-block-inner\" data-lang=\"ts\">       <i class=hh4>const</i> <i class=hh15>user</i> <i class=hh5>=</i> <i class=hh8>{</i>\n  <i class=hh6>firstName</i>: <i class=hh10>\"Angela\"</i><i class=hh9>,</i>\n  <i class=hh6>lastName</i>: <i class=hh10>\"Davis\"</i><i class=hh9>,</i>\n  <i class=hh6>role</i>: <i class=hh10>\"Professor\"</i><i class=hh9>,</i>\n<i class=hh8>}</i>\n\n<i class=hh16>console</i><i class=hh9>.</i><i class=hh3>log</i><i class=hh8>(</i><i class=hh15>user</i><i class=hh9>.</i><i class=hh6>name</i><i class=hh8>)</i>\n        <i class=hh10>``</i>`</pre></div>");
}

#[test]
fn test_unknown_language_fallback() {
    let input = "```unknownlang123\nfoo <bar>\n```";
    let HTMLOutput { content, .. } = process_markdown_to_html(input).unwrap();
    assert_eq!(
        content,
        "<div class=\"code-block\"><div class=\"language-tag\">unknownlang123</div><pre class=\"code-block-inner\" data-lang=\"unknownlang123\">foo &lt;bar&gt;\n</pre></div>"
    );
    assert!(!content.contains("<i class=hh"));
}

#[test]
fn test_raw_language_hides_tag() {
    let input = "```raw\nx<y\n```";
    let HTMLOutput { content, .. } = process_markdown_to_html(input).unwrap();
    assert_eq!(
        content,
        "<div class=\"code-block\"><pre class=\"code-block-inner\" data-lang=\"raw\">x&lt;y\n</pre></div>"
    );
}

#[test]
fn test_shell_language_no_highlighter() {
    let input = "```shell\n$ ls <dir>\n```";
    let HTMLOutput { content, .. } = process_markdown_to_html(input).unwrap();
    assert_eq!(
        content,
        "<div class=\"code-block\"><div class=\"language-tag\">Shell session</div><pre class=\"code-block-inner\" data-lang=\"shell\">$ ls &lt;dir&gt;\n</pre></div>"
    );
}

#[test]
fn test_no_headings_no_toc() {
    let HTMLOutput { toc, .. } = process_markdown_to_html("hello *world*\n\nplain text").unwrap();
    assert!(toc.is_none());
}

#[test]
fn test_heading_suppressed_in_blockquote() {
    let input = "> ## Quoted heading\n";
    let HTMLOutput { toc, content, .. } = process_markdown_to_html(input).unwrap();
    assert!(toc.is_none());
    assert!(content.contains("<h2>"));
    assert!(!content.contains("class=\"anchor\""));
}

#[test]
fn test_empty_document() {
    let HTMLOutput { toc, content, .. } = process_markdown_to_html("").unwrap();
    assert!(toc.is_none());
    assert_eq!(content, "");
}

#[test]
fn test_heading_suppressed_in_figcaption() {
    let input = "<figcaption>\n\n## Caption heading\n\n</figcaption>\n";
    let HTMLOutput { toc, content, .. } = process_markdown_to_html(input).unwrap();
    assert!(toc.is_none());
    assert!(content.contains("<h2>"));
    assert!(!content.contains("class=\"anchor\""));
}

#[test]
fn test_heading_with_inline_code_slug() {
    let input = "# Intro `name`\n";
    let HTMLOutput { toc, content, .. } = process_markdown_to_html(input).unwrap();
    let toc = toc.expect("toc should be present");
    assert_eq!(
        toc,
        "<ul class=\"table-of-contents\"><li class=\"toc-entry level-1\"><a href=\"#intro-name\">Intro <code>name</code></a></li></ul>"
    );
    assert!(content.contains("<a id=\"intro-name\" class=\"anchor\" href=\"#intro-name\">"));
    assert!(content.contains("Intro <code>name</code>"));
}

#[test]
fn test_heading_levels_in_toc() {
    let input = "# One\n\nsome text\n\n### Three\n";
    let HTMLOutput { toc, .. } = process_markdown_to_html(input).unwrap();
    let toc = toc.expect("toc should be present");
    assert!(toc.starts_with("<ul class=\"table-of-contents\">"));
    assert!(toc.contains("<li class=\"toc-entry level-1\"><a href=\"#one\">One</a></li>"));
    assert!(toc.contains("<li class=\"toc-entry level-3\"><a href=\"#three\">Three</a></li>"));
    assert!(toc.ends_with("</ul>"));
}

#[test]
fn test_frontmatter_extraction() {
    let input = "# My Post\n\n```toml\nauthor = \"someone\"\n```\n\nBody text.\n";
    let HTMLOutput { toc, content, frontmatter } =
        femark::process_markdown_to_html_with_frontmatter(input, true).unwrap();
    let fm = frontmatter.expect("frontmatter should be detected");
    assert_eq!(fm.title.as_deref(), Some("My Post"));
    let cb = fm.code_block.expect("frontmatter code block should be detected");
    assert_eq!(cb.language.as_deref(), Some("toml"));
    assert_eq!(cb.source, "author = \"someone\"\n");
    assert!(!content.contains("author"));
    assert!(content.contains("<a id=\"my-post\" class=\"anchor\" href=\"#my-post\">"));
    let toc = toc.expect("the title heading should enter the toc");
    assert!(toc.contains("<a href=\"#my-post\">My Post</a>"));
}

#[test]
fn test_no_frontmatter_without_extraction() {
    let input = "# My Post\n\n```toml\nauthor = \"someone\"\n```\n";
    let out = process_markdown_to_html(input).unwrap();
    assert!(out.frontmatter.is_none());
    assert!(out.content.contains("author"));
}
