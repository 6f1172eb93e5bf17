//! The language registry: fence-info tokens, display names, highlighters.
//!
//! The registry is a fixed table built once per render call. A token may
//! resolve to a language without a highlighter (a display name only), and
//! two tokens may resolve to the same language under different rows (such
//! as `js` and `javascript`). No grammar is linked for `nix`: its row
//! carries the display name only, so nix fences render as escaped text
//! under the `Nix code` tag. The 21 recognized category names are listed
//! here in a fixed order, because the emitted `hh<N>` classes carry the
//! index of a name in this list.

use vstd::prelude::*;
use tree_sitter_highlight::HighlightConfiguration;
use crate::tree_sitter_collection::TreeSitterCollection;
use crate::strutil::str_eq;

verus! {

/// One language the registry can resolve: its display name and, when a
/// grammar is linked for it, a highlighter configuration.
pub struct Lang {
    pub conf: Option<HighlightConfiguration>,
    pub name: &'static str,
}

/// One registry row: the fence-info token and the language it resolves to.
pub struct LangEntry {
    pub key: &'static str,
    pub lang: Lang,
}

/// The language registry, looked up by fence-info token.
pub struct Langs {
    pub langs: Vec<LangEntry>,
}

/// The first row whose key is `k`, if any.
pub open spec fn lookup(s: Seq<LangEntry>, k: Seq<char>) -> Option<Lang>
    decreases s.len(),
{
    if s.len() == 0 {
        Option::None
    } else if s[0].key@ == k {
        Option::Some(s[0].lang)
    } else {
        lookup(s.drop_first(), k)
    }
}

/// The recognized category name at index `i`, 21 names in all.
pub open spec fn highlight_name(i: int) -> Seq<char> {
    if i == 0 {
        "attribute"@
    } else if i == 1 {
        "constant"@
    } else if i == 2 {
        "function.builtin"@
    } else if i == 3 {
        "function"@
    } else if i == 4 {
        "keyword"@
    } else if i == 5 {
        "operator"@
    } else if i == 6 {
        "property"@
    } else if i == 7 {
        "punctuation"@
    } else if i == 8 {
        "punctuation.bracket"@
    } else if i == 9 {
        "punctuation.delimiter"@
    } else if i == 10 {
        "string"@
    } else if i == 11 {
        "string.special"@
    } else if i == 12 {
        "tag"@
    } else if i == 13 {
        "type"@
    } else if i == 14 {
        "type.builtin"@
    } else if i == 15 {
        "variable"@
    } else if i == 16 {
        "variable.builtin"@
    } else if i == 17 {
        "variable.parameter"@
    } else if i == 18 {
        "comment"@
    } else if i == 19 {
        "macro"@
    } else {
        "label"@
    }
}

/// The recognized category names, in the order that fixes the `hh<N>`
/// class numbering.
pub fn highlight_names() -> (r: Vec<&'static str>)
    ensures
        r@.len() == 21,
        forall|i: int| 0 <= i < 21 ==> (#[trigger] r@[i])@ == highlight_name(i),
{
    let mut v: Vec<&'static str> = Vec::new();
    v.push("attribute");
    v.push("constant");
    v.push("function.builtin");
    v.push("function");
    v.push("keyword");
    v.push("operator");
    v.push("property");
    v.push("punctuation");
    v.push("punctuation.bracket");
    v.push("punctuation.delimiter");
    v.push("string");
    v.push("string.special");
    v.push("tag");
    v.push("type");
    v.push("type.builtin");
    v.push("variable");
    v.push("variable.builtin");
    v.push("variable.parameter");
    v.push("comment");
    v.push("macro");
    v.push("label");
    v
}

/// Relies on `HighlightConfiguration::configure`: records the recognized
/// category names; the highlighter thereafter reports each category as an
/// index into this list.
#[verifier::external_body]
fn configure_conf(conf: &mut HighlightConfiguration, names: &Vec<&'static str>) {
    conf.configure(names.as_slice());
}

/// One registry row as the contracts state it: its key, its display name,
/// and whether a highlighter is present.
pub open spec fn entry_is(e: LangEntry, key: Seq<char>, name: Seq<char>, has_conf: bool) -> bool {
    e.key@ == key && e.lang.name@ == name && (e.lang.conf is Some) == has_conf
}

/// The full registry table.
pub open spec fn registry_rows(s: Seq<LangEntry>) -> bool {
    s.len() == 20 && entry_is(s[0], "go"@, "Go code"@, true) && entry_is(
        s[1],
        "c"@,
        "C code"@,
        true,
    ) && entry_is(s[2], "rust"@, "Rust code"@, true) && entry_is(s[3], "nix"@, "Nix code"@, false)
        && entry_is(s[4], "javascript"@, "JavaScript code"@, true) && entry_is(
        s[5],
        "js"@,
        "JavaScript code"@,
        true,
    ) && entry_is(s[6], "jsx"@, "Javascript React code"@, true) && entry_is(
        s[7],
        "typescript"@,
        "TypeScript code"@,
        true,
    ) && entry_is(s[8], "ts"@, "TypeScript code"@, true) && entry_is(
        s[9],
        "tsx"@,
        "TypeScript React code"@,
        true,
    ) && entry_is(s[10], "toml"@, "TOML markup"@, true) && entry_is(s[11], "html"@, "HTML"@, true)
        && entry_is(s[12], "xml"@, "XML"@, true) && entry_is(
        s[13],
        "shell"@,
        "Shell session"@,
        false,
    ) && entry_is(s[14], "pwsh"@, "PowerShell session"@, false) && entry_is(
        s[15],
        "pwsh-script"@,
        "PowerShell script"@,
        false,
    ) && entry_is(s[16], "raw"@, ""@, false) && entry_is(s[17], "python"@, "Python code"@, true)
        && entry_is(s[18], "dockerfile"@, "Dockerfile"@, true) && entry_is(
        s[19],
        "json"@,
        "JSON"@,
        true,
    )
}

impl Langs {
    /// Builds the registry: every grammar-backed language configured with
    /// the recognized category names, plus the display-name-only rows.
    /// Grammar construction succeeds (the bundled queries compile), so
    /// the registry is always built.
    pub fn new() -> (r: Result<Langs, String>)
        ensures
            r is Ok,
            r matches Ok(l) ==> registry_rows(l.langs@),
    {
        let names = highlight_names();
        let mut v: Vec<LangEntry> = Vec::new();
        let col = TreeSitterCollection::go()?;
        let mut conf = col.conf;
        configure_conf(&mut conf, &names);
        v.push(LangEntry { key: "go", lang: Lang { conf: Option::Some(conf), name: "Go code" } });
        let col = TreeSitterCollection::c()?;
        let mut conf = col.conf;
        configure_conf(&mut conf, &names);
        v.push(LangEntry { key: "c", lang: Lang { conf: Option::Some(conf), name: "C code" } });
        let col = TreeSitterCollection::rust()?;
        let mut conf = col.conf;
        configure_conf(&mut conf, &names);
        v.push(
            LangEntry { key: "rust", lang: Lang { conf: Option::Some(conf), name: "Rust code" } },
        );
        v.push(LangEntry { key: "nix", lang: Lang { conf: Option::None, name: "Nix code" } });
        let col = TreeSitterCollection::javascript()?;
        let mut conf = col.conf;
        configure_conf(&mut conf, &names);
        v.push(
            LangEntry {
                key: "javascript",
                lang: Lang { conf: Option::Some(conf), name: "JavaScript code" },
            },
        );
        let col = TreeSitterCollection::javascript()?;
        let mut conf = col.conf;
        configure_conf(&mut conf, &names);
        v.push(
            LangEntry {
                key: "js",
                lang: Lang { conf: Option::Some(conf), name: "JavaScript code" },
            },
        );
        let col = TreeSitterCollection::jsx()?;
        let mut conf = col.conf;
        configure_conf(&mut conf, &names);
        v.push(
            LangEntry {
                key: "jsx",
                lang: Lang { conf: Option::Some(conf), name: "Javascript React code" },
            },
        );
        let col = TreeSitterCollection::typescript()?;
        let mut conf = col.conf;
        configure_conf(&mut conf, &names);
        v.push(
            LangEntry {
                key: "typescript",
                lang: Lang { conf: Option::Some(conf), name: "TypeScript code" },
            },
        );
        let col = TreeSitterCollection::typescript()?;
        let mut conf = col.conf;
        configure_conf(&mut conf, &names);
        v.push(
            LangEntry {
                key: "ts",
                lang: Lang { conf: Option::Some(conf), name: "TypeScript code" },
            },
        );
        let col = TreeSitterCollection::tsx()?;
        let mut conf = col.conf;
        configure_conf(&mut conf, &names);
        v.push(
            LangEntry {
                key: "tsx",
                lang: Lang { conf: Option::Some(conf), name: "TypeScript React code" },
            },
        );
        let col = TreeSitterCollection::toml()?;
        let mut conf = col.conf;
        configure_conf(&mut conf, &names);
        v.push(
            LangEntry {
                key: "toml",
                lang: Lang { conf: Option::Some(conf), name: "TOML markup" },
            },
        );
        let col = TreeSitterCollection::html()?;
        let mut conf = col.conf;
        configure_conf(&mut conf, &names);
        v.push(LangEntry { key: "html", lang: Lang { conf: Option::Some(conf), name: "HTML" } });
        let col = TreeSitterCollection::html()?;
        let mut conf = col.conf;
        configure_conf(&mut conf, &names);
        v.push(LangEntry { key: "xml", lang: Lang { conf: Option::Some(conf), name: "XML" } });
        v.push(
            LangEntry { key: "shell", lang: Lang { conf: Option::None, name: "Shell session" } },
        );
        v.push(
            LangEntry {
                key: "pwsh",
                lang: Lang { conf: Option::None, name: "PowerShell session" },
            },
        );
        v.push(
            LangEntry {
                key: "pwsh-script",
                lang: Lang { conf: Option::None, name: "PowerShell script" },
            },
        );
        v.push(LangEntry { key: "raw", lang: Lang { conf: Option::None, name: "" } });
        let col = TreeSitterCollection::python()?;
        let mut conf = col.conf;
        configure_conf(&mut conf, &names);
        v.push(
            LangEntry {
                key: "python",
                lang: Lang { conf: Option::Some(conf), name: "Python code" },
            },
        );
        let col = TreeSitterCollection::dockerfile()?;
        let mut conf = col.conf;
        configure_conf(&mut conf, &names);
        v.push(
            LangEntry {
                key: "dockerfile",
                lang: Lang { conf: Option::Some(conf), name: "Dockerfile" },
            },
        );
        let col = TreeSitterCollection::json()?;
        let mut conf = col.conf;
        configure_conf(&mut conf, &names);
        v.push(LangEntry { key: "json", lang: Lang { conf: Option::Some(conf), name: "JSON" } });
        Ok(Langs { langs: v })
    }

    /// The language a fence-info token resolves to, if any.
    pub fn get(&self, k: &str) -> (r: Option<&Lang>)
        ensures
            r matches Some(l) ==> lookup(self.langs@, k@) == Option::Some(*l),
            r is None <==> lookup(self.langs@, k@) is None,
    {
        let ghost full = self.langs@;
        let mut i: usize = 0;
        proof {
            assert(full.skip(0) =~= full);
        }
        while i < self.langs.len()
            invariant
                i <= self.langs.len(),
                full == self.langs@,
                lookup(full.skip(i as int), k@) == lookup(full, k@),
            decreases self.langs.len() - i,
        {
            proof {
                assert(full.skip(i as int)[0] == full[i as int]);
                assert(full.skip(i as int).drop_first() =~= full.skip(i + 1));
            }
            if str_eq(self.langs[i].key, k) {
                return Some(&self.langs[i].lang);
            }
            i = i + 1;
        }
        proof {
            assert(full.skip(full.len() as int) =~= Seq::<LangEntry>::empty());
        }
        None
    }
}

} // verus!
