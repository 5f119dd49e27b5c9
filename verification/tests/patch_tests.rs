use mac_setup::configurators::zshrc::{
    contains_text, find_active, find_insertion_point, has_export_line, is_active_line,
    is_content_line, line_mentions_key, render_plugins_line, ZshrcConfigurator,
};

fn patcher() -> ZshrcConfigurator {
    ZshrcConfigurator::default()
}

fn patch(content: &str, theme: &str, plugins: &[&str], exports: &[(&str, &str)]) -> String {
    patcher().modify_zshrc_content(content, theme, plugins, exports)
}

fn lines(items: &[&str]) -> Vec<String> {
    items.iter().map(|s| s.to_string()).collect()
}

fn chars(s: &str) -> Vec<char> {
    s.chars().collect()
}

#[test]
fn the_default_directive_is_the_declared_one() {
    let k = ZshrcConfigurator::default();
    assert_eq!(k.theme, "stefc");
    assert_eq!(k.plugins, vec!["z".to_string(), "gh".to_string()]);
    assert_eq!(k.env_vars, vec![("HOMEBREW_NO_AUTO_UPDATE".to_string(), "1".to_string())]);
}

#[test]
fn a_comment_only_file_gets_theme_plugins_and_export() {
    let out = patch("# comment", "x", &["z"], &[("K", "1")]);
    assert_eq!(out, "ZSH_THEME=\"x\"\nplugins=(z)\n# comment\n\n# Added by mac-setup\nexport K=1\n");
}

#[test]
fn an_empty_document_gets_theme_then_plugins_then_exports() {
    let out = patch("", "x", &["z", "gh"], &[("K", "1"), ("L", "two")]);
    assert_eq!(
        out,
        "ZSH_THEME=\"x\"\nplugins=(z gh)\n\n# Added by mac-setup\nexport K=1\n\n# Added by mac-setup\nexport L=two\n"
    );
    assert!(!out.starts_with('\n'));
}

#[test]
fn an_empty_document_with_an_empty_directive() {
    assert_eq!(patch("", "", &[], &[]), "ZSH_THEME=\"\"\nplugins=()\n");
}

#[test]
fn patching_twice_is_patching_once() {
    let docs = [
        "",
        "# comment",
        "# c\n\nexport PATH=/bin\nZSH_THEME=\"robbyrussell\"\nplugins=(git)\nsource $ZSH/oh-my-zsh.sh\n",
        "  plugins=( git   z )  # trailing\nalias ll='ls -l'\n",
        "export HOMEBREW_NO_AUTO_UPDATE=0\n#ZSH_THEME=\"old\"\n",
        "line one\r\nline two\r\n",
    ];
    for doc in docs {
        let once = patch(doc, "stefc", &["z", "gh"], &[("HOMEBREW_NO_AUTO_UPDATE", "1"), ("EDITOR", "hx")]);
        let twice = patch(&once, "stefc", &["z", "gh"], &[("HOMEBREW_NO_AUTO_UPDATE", "1"), ("EDITOR", "hx")]);
        assert_eq!(twice, once, "{:?}", doc);
    }
}

#[test]
fn the_theme_is_replaced_in_place() {
    let doc = "# c\nZSH_THEME=\"old\"\nplugins=(z)\nsource x\n";
    let out = patch(doc, "new", &["z"], &[]);
    assert_eq!(out, "# c\nZSH_THEME=\"new\"\nplugins=(z)\nsource x\n");
    assert_eq!(out.lines().count(), doc.lines().count());
}

#[test]
fn update_or_add_line_replaces_only_the_first_active_line() {
    let k = patcher();
    let mut doc = lines(&["# ZSH_THEME=\"a\"", "  ZSH_THEME=\"b\"", "ZSH_THEME=\"c\""]);
    let inserted = k.place_line(&mut doc, "ZSH_THEME", "ZSH_THEME=\"new\"", 0);
    assert!(!inserted);
    let mut again = lines(&["# ZSH_THEME=\"a\"", "  ZSH_THEME=\"b\"", "ZSH_THEME=\"c\""]);
    k.update_or_add_line(&mut again, "ZSH_THEME", "ZSH_THEME=\"new\"");
    assert_eq!(again, doc);
    assert_eq!(doc, lines(&["# ZSH_THEME=\"a\"", "ZSH_THEME=\"new\"", "ZSH_THEME=\"c\""]));
}

#[test]
fn update_or_add_line_inserts_where_it_is_told() {
    let k = patcher();
    let mut doc = lines(&["# a", "b", "c"]);
    let at = find_insertion_point(&doc);
    assert_eq!(at, 1);
    let inserted = k.place_line(&mut doc, "ZSH_THEME", "ZSH_THEME=\"t\"", at);
    assert!(inserted);
    assert_eq!(doc, lines(&["# a", "ZSH_THEME=\"t\"", "b", "c"]));
    let inserted = k.place_line(&mut doc, "plugins=", "plugins=(z)", 4);
    assert!(inserted);
    assert_eq!(doc, lines(&["# a", "ZSH_THEME=\"t\"", "b", "c", "plugins=(z)"]));
}

#[test]
fn update_or_add_line_inserts_before_the_first_content_line() {
    let k = patcher();
    let mut doc = lines(&["", "# a", "b", "c"]);
    k.update_or_add_line(&mut doc, "ZSH_THEME", "ZSH_THEME=\"t\"");
    assert_eq!(doc, lines(&["", "# a", "ZSH_THEME=\"t\"", "b", "c"]));
    let mut comments = lines(&["# a", "  "]);
    k.update_or_add_line(&mut comments, "ZSH_THEME", "ZSH_THEME=\"t\"");
    assert_eq!(comments, lines(&["ZSH_THEME=\"t\"", "# a", "  "]));
    let mut empty: Vec<String> = Vec::new();
    k.update_or_add_line(&mut empty, "ZSH_THEME", "ZSH_THEME=\"t\"");
    assert_eq!(empty, lines(&["ZSH_THEME=\"t\""]));
}

#[test]
fn a_commented_theme_line_is_left_alone() {
    let out = patch("# ZSH_THEME=\"old\"\nalias a=b\n", "t", &["z"], &[]);
    assert_eq!(out, "# ZSH_THEME=\"old\"\nZSH_THEME=\"t\"\nplugins=(z)\nalias a=b\n");
}

#[test]
fn a_commented_plugins_line_is_left_alone() {
    let out = patch("ZSH_THEME=\"t\"\n  # plugins=(git)\n", "t", &["z"], &[]);
    assert_eq!(out, "plugins=(z)\nZSH_THEME=\"t\"\n  # plugins=(git)\n");
}

#[test]
fn plugin_union_keeps_order_and_adds_no_duplicate() {
    let k = patcher();
    let mut doc = lines(&["plugins=(a b)"]);
    k.extend_plugins(&mut doc, &["b", "c"]);
    assert_eq!(doc, lines(&["plugins=(a b c)"]));
}

#[test]
fn plugin_union_through_the_whole_patch() {
    let out = patch("plugins=(a b)\n", "t", &["b", "c"], &[]);
    assert_eq!(out, "ZSH_THEME=\"t\"\nplugins=(a b c)\n");
}

#[test]
fn plugins_are_compared_as_whole_tokens() {
    let k = patcher();
    let mut doc = lines(&["plugins=(git-extras)"]);
    k.extend_plugins(&mut doc, &["git"]);
    assert_eq!(doc, lines(&["plugins=(git-extras git)"]));
}

#[test]
fn text_after_the_first_closing_bracket_is_dropped() {
    let k = patcher();
    let mut doc = lines(&["  plugins=( a   b ) # c)"]);
    k.extend_plugins(&mut doc, &["c"]);
    assert_eq!(doc, lines(&["plugins=(a b c)"]));
}

#[test]
fn a_plugins_line_without_a_proper_list_lists_nothing() {
    let k = patcher();
    for line in ["plugins=", "plugins=(a b", "plugins=) (a b", "plugins=a b)"] {
        let mut doc = lines(&[line]);
        k.extend_plugins(&mut doc, &["z"]);
        assert_eq!(doc, lines(&["plugins=(z)"]), "{:?}", line);
    }
}

#[test]
fn a_missing_plugins_line_lists_exactly_the_required_plugins() {
    let k = patcher();
    let mut doc = lines(&["# top", "alias x=y"]);
    k.extend_plugins(&mut doc, &["z", "gh", "z"]);
    assert_eq!(doc, lines(&["# top", "plugins=(z gh z)", "alias x=y"]));
    let mut placed = lines(&["# top", "alias x=y"]);
    k.place_plugins(&mut placed, &["z"], 2);
    assert_eq!(placed, lines(&["# top", "alias x=y", "plugins=(z)"]));
    let mut found = lines(&["plugins=(a)", "alias x=y"]);
    k.place_plugins(&mut found, &["a", "b"], 2);
    assert_eq!(found, lines(&["plugins=(a b)", "alias x=y"]));
}

#[test]
fn an_existing_export_is_never_overwritten() {
    let out = patch("export FOO=old\n", "t", &[], &[("FOO", "new")]);
    assert_eq!(out, "ZSH_THEME=\"t\"\nplugins=()\nexport FOO=old\n");
}

#[test]
fn ensure_export_leaves_a_document_with_the_key_untouched() {
    let k = patcher();
    for line in ["export FOO=old", "  export FOO", "FOO=bar", "\tFOO=", "export FOOBAR=1"] {
        let mut doc = lines(&["a", line, "b"]);
        k.ensure_export(&mut doc, "FOO", "new");
        assert_eq!(doc, lines(&["a", line, "b"]), "{:?}", line);
    }
}

#[test]
fn ensure_export_appends_a_block_for_a_missing_key() {
    let k = patcher();
    let mut doc = lines(&["# export FOO=1", "FOOBAR", "exportFOO=1"]);
    k.ensure_export(&mut doc, "FOO", "new");
    assert_eq!(
        doc,
        lines(&["# export FOO=1", "FOOBAR", "exportFOO=1", "", "# Added by mac-setup", "export FOO=new"])
    );
}

#[test]
fn an_export_appended_for_one_key_counts_for_the_next() {
    let out = patch("", "t", &[], &[("K", "1"), ("K", "2")]);
    assert_eq!(out, "ZSH_THEME=\"t\"\nplugins=()\n\n# Added by mac-setup\nexport K=1\n");
}

#[test]
fn untouched_lines_keep_their_order() {
    let doc = "one\n# two\n\nthree\nplugins=(x)\nfour\n";
    let out = patch(doc, "t", &["y"], &[("E", "1")]);
    assert_eq!(
        out,
        "ZSH_THEME=\"t\"\none\n# two\n\nthree\nplugins=(x y)\nfour\n\n# Added by mac-setup\nexport E=1\n"
    );
}

#[test]
fn carriage_returns_before_line_feeds_are_dropped() {
    let out = patch("alias a=b\r\n", "t", &["z"], &[]);
    assert_eq!(out, "ZSH_THEME=\"t\"\nplugins=(z)\nalias a=b\n");
}

#[test]
fn line_classification() {
    assert!(is_active_line("  ZSH_THEME=\"x\"  ", "ZSH_THEME"));
    assert!(is_active_line("ZSH_THEME_RANDOM=1", "ZSH_THEME"));
    assert!(!is_active_line("# ZSH_THEME=\"x\"", "ZSH_THEME"));
    assert!(!is_active_line("export ZSH_THEME=x", "ZSH_THEME"));
    assert!(!is_active_line("", "ZSH_THEME"));
    assert!(is_active_line("anything", ""));
    assert!(!is_active_line("#", ""));
    assert!(is_content_line("  x"));
    assert!(!is_content_line("   "));
    assert!(!is_content_line(""));
    assert!(!is_content_line("  # x"));
}

#[test]
fn first_active_line_and_insertion_point() {
    let doc = lines(&["", "# c", "  ", "alias a", "plugins=(x)", "plugins=(y)"]);
    assert_eq!(find_active(&doc, "plugins="), 4);
    assert_eq!(find_active(&doc, "ZSH_THEME"), doc.len());
    assert_eq!(find_insertion_point(&doc), 3);
    assert_eq!(find_insertion_point(&lines(&["# a", ""])), 0);
    assert_eq!(find_insertion_point(&Vec::new()), 0);
}

#[test]
fn key_mentions() {
    assert!(line_mentions_key("export K=1", "K"));
    assert!(line_mentions_key("  K=1", "K"));
    assert!(line_mentions_key("export KK", "K"));
    assert!(!line_mentions_key("# export K=1", "K"));
    assert!(!line_mentions_key("export  K=1", "K"));
    assert!(!line_mentions_key("XK=1", "K"));
    assert!(has_export_line(&lines(&["a", "K=2"]), "K"));
    assert!(!has_export_line(&lines(&["a", "b"]), "K"));
    assert!(!has_export_line(&Vec::new(), "K"));
}

#[test]
fn plugins_line_rendering_and_token_search() {
    assert_eq!(render_plugins_line(&vec![chars("a"), chars("b")]), "plugins=(a b)");
    assert_eq!(render_plugins_line(&Vec::new()), "plugins=()");
    assert!(contains_text(&vec![chars("a"), chars("b")], &chars("b")));
    assert!(!contains_text(&vec![chars("ab")], &chars("a")));
}

#[test]
fn the_configurator_patches_with_its_own_directive() {
    let k = ZshrcConfigurator {
        theme: "x".to_string(),
        plugins: vec!["z".to_string()],
        env_vars: vec![("K".to_string(), "1".to_string())],
    };
    assert_eq!(
        k.run_configure("# comment\n"),
        "ZSH_THEME=\"x\"\nplugins=(z)\n# comment\n\n# Added by mac-setup\nexport K=1\n"
    );
}
