use renombrar::{Config, ConfigError, Modo, Scanner, Step, Summary};

/// Runs a scan over in-memory files, each a path and its lines. A rename changes the
/// path in `files`; a preview leaves it. Returns the moves asked for and the summary.
fn drive(
    config: Config,
    dry_run: bool,
    files: &mut Vec<(String, Vec<String>)>,
) -> (Vec<(String, String)>, Vec<usize>, Summary) {
    let mut scanner = Scanner::new(config, dry_run);
    let mut moves = Vec::new();
    let mut lines_read = Vec::new();
    for file in files.iter_mut() {
        let mut step = scanner.on_file(file.0.clone());
        let mut next_line = 0;
        loop {
            match step {
                Step::Next => break,
                Step::ReadLine => {
                    if next_line == file.1.len() {
                        scanner.on_end();
                        break;
                    }
                    let line = file.1[next_line].clone();
                    next_line += 1;
                    step = scanner.on_line(&line);
                }
                Step::Rename { from, to } => {
                    assert!(!dry_run);
                    assert_eq!(from, file.0);
                    file.0 = to.clone();
                    moves.push((from, to));
                    scanner.on_moved();
                    break;
                }
                Step::Preview { from, to } => {
                    assert!(dry_run);
                    moves.push((from, to));
                    scanner.on_moved();
                    break;
                }
            }
        }
        lines_read.push(next_line);
    }
    (moves, lines_read, scanner.summary())
}

fn file(path: &str, lines: &[&str]) -> (String, Vec<String>) {
    (path.to_string(), lines.iter().map(|l| l.to_string()).collect())
}

fn preset(m: Modo) -> Config {
    Config::resolve(Some(m), None, None).unwrap()
}

fn custom(pattern: &str, ext: &str) -> Result<Config, ConfigError> {
    Config::resolve(None, Some(pattern.to_string()), Some(ext.to_string()))
}

#[test]
fn js_to_jsx_renames_only_files_with_closing_tag() {
    let mut files = vec![
        file("dir/a.js", &["const x = 1;", "return <div>hi</div>;"]),
        file("dir/b.js", &["const y = 2;"]),
    ];
    let (moves, _, summary) = drive(preset(Modo::JsAJsx), false, &mut files);
    assert_eq!(moves, vec![("dir/a.js".to_string(), "dir/a.jsx".to_string())]);
    assert_eq!(files[0].0, "dir/a.jsx");
    assert_eq!(files[1].0, "dir/b.js");
    assert_eq!(summary, Summary { detected: 1, changed: 1, dry_run: false });
    assert_eq!(summary.verb(), "renombrados");
}

#[test]
fn dry_run_previews_and_changes_nothing() {
    let mut files = vec![file("dir/a.js", &["</div>"]), file("dir/b.js", &["nothing here"])];
    let before = files.clone();
    let (moves, _, summary) = drive(preset(Modo::JsAJsx), true, &mut files);
    assert_eq!(moves, vec![("dir/a.js".to_string(), "dir/a.jsx".to_string())]);
    assert_eq!(files, before);
    assert_eq!(summary, Summary { detected: 1, changed: 1, dry_run: true });
    assert_eq!(format!("{} {}.", summary.changed, summary.verb()), "1 simulados.");
}

#[test]
fn jsx_to_js_renames_without_reading() {
    let mut files = vec![file("c.jsx", &["no tags at all"]), file("d.js", &["</div>"])];
    let (moves, lines_read, summary) = drive(preset(Modo::JsxAJs), false, &mut files);
    assert_eq!(moves, vec![("c.jsx".to_string(), "c.js".to_string())]);
    assert_eq!(lines_read, vec![0, 0]);
    assert_eq!(files[0].0, "c.js");
    assert_eq!(files[1].0, "d.js");
    assert_eq!(summary, Summary { detected: 1, changed: 1, dry_run: false });
}

#[test]
fn custom_pattern_gives_new_extension() {
    let config = custom("TODO", "flagged").unwrap();
    let mut files = vec![file("src/main.rs", &["fn main() {}", "// TODO fix"]), file("notes.txt", &["done"])];
    let (moves, _, summary) = drive(config, false, &mut files);
    assert_eq!(moves, vec![("src/main.rs".to_string(), "src/main.flagged".to_string())]);
    assert_eq!(files[0].0, "src/main.flagged");
    assert_eq!(files[1].0, "notes.txt");
    assert_eq!(summary, Summary { detected: 1, changed: 1, dry_run: false });
}

#[test]
fn preset_with_regex_is_a_conflict() {
    let r = Config::resolve(Some(Modo::JsAJsx), Some("x".to_string()), None);
    assert_eq!(r.err(), Some(ConfigError::Conflict));
    let r = Config::resolve(Some(Modo::JsxAJs), None, Some("ts".to_string()));
    assert_eq!(r.err(), Some(ConfigError::Conflict));
}

#[test]
fn missing_and_invalid_custom_arguments() {
    assert_eq!(Config::resolve(None, None, Some("x".to_string())).err(), Some(ConfigError::MissingRegex));
    assert_eq!(Config::resolve(None, None, None).err(), Some(ConfigError::MissingRegex));
    assert_eq!(custom("foo(bar", "x").err(), Some(ConfigError::InvalidRegex));
    assert_eq!(Config::resolve(None, Some("TODO".to_string()), None).err(), Some(ConfigError::MissingExtension));
    assert_eq!(custom("TODO", "a/b").err(), Some(ConfigError::InvalidExtension));
}

#[test]
fn second_js_to_jsx_pass_does_nothing() {
    let mut files = vec![file("a.js", &["</span>"]), file("b.js", &["plain"]), file("c.jsx", &["</p>"])];
    let (first, _, s1) = drive(preset(Modo::JsAJsx), false, &mut files);
    assert_eq!(first.len(), 1);
    assert_eq!(s1.detected, 1);
    let (second, _, s2) = drive(preset(Modo::JsAJsx), false, &mut files);
    assert!(second.is_empty());
    assert_eq!(s2, Summary { detected: 0, changed: 0, dry_run: false });
}

#[test]
fn reading_stops_at_first_matching_line() {
    let mut files = vec![file("a.js", &["x", "</b>", "y", "</c>"]), file("b.js", &["x", "y"])];
    let (_, lines_read, _) = drive(preset(Modo::JsAJsx), true, &mut files);
    assert_eq!(lines_read, vec![2, 2]);
}

#[test]
fn extension_filter_skips_other_files_unread() {
    let mut files = vec![file("a.ts", &["</div>"]), file("b", &["</div>"]), file(".js", &["</div>"])];
    let (moves, lines_read, summary) = drive(preset(Modo::JsAJsx), false, &mut files);
    assert!(moves.is_empty());
    assert_eq!(lines_read, vec![0, 0, 0]);
    assert_eq!(summary, Summary { detected: 0, changed: 0, dry_run: false });
}

#[test]
fn empty_file_is_not_selected() {
    let config = custom(".*", "out").unwrap();
    let mut files = vec![file("empty.txt", &[]), file("one.txt", &[""])];
    let (moves, _, summary) = drive(config, false, &mut files);
    assert_eq!(moves, vec![("one.txt".to_string(), "one.out".to_string())]);
    assert_eq!(summary.detected, 1);
}

#[test]
fn custom_mode_considers_every_extension_and_appends() {
    let config = custom("^key=", "conf").unwrap();
    let mut files = vec![file("settings", &["key=1"]), file("a.b.ini", &["key=2"]), file("x.ini", &[" key=3"])];
    let (moves, _, summary) = drive(config, true, &mut files);
    assert_eq!(
        moves,
        vec![
            ("settings".to_string(), "settings.conf".to_string()),
            ("a.b.ini".to_string(), "a.b.conf".to_string()),
        ]
    );
    assert_eq!(summary, Summary { detected: 2, changed: 2, dry_run: true });
    assert_eq!(summary.verb(), "simulados");
}

#[test]
fn config_fields_of_each_variant() {
    let a = preset(Modo::JsAJsx);
    assert_eq!(a.target_extension(), "jsx");
    assert!(a.require_match());
    assert_eq!(a.extension_filter(), Some("js".to_string()));
    let b = preset(Modo::JsxAJs);
    assert_eq!(b.target_extension(), "js");
    assert!(!b.require_match());
    assert_eq!(b.extension_filter(), Some("jsx".to_string()));
    let c = custom("TODO", "flagged").unwrap();
    assert_eq!(c.target_extension(), "flagged");
    assert!(c.require_match());
    assert_eq!(c.extension_filter(), None);
}

#[test]
fn admits_and_new_path() {
    let a = preset(Modo::JsAJsx);
    assert!(a.admits("dir/x.js"));
    assert!(!a.admits("dir/x.jsx"));
    assert!(!a.admits("dir/js"));
    assert_eq!(a.new_path("dir/x.js"), "dir/x.jsx");
    assert_eq!(a.new_path("dir/noext"), "dir/noext.jsx");
    let c = custom("x", "").unwrap();
    assert_eq!(c.new_path("d/f.txt"), "d/f");
}

#[test]
fn line_selection_by_pattern() {
    let a = preset(Modo::JsAJsx);
    assert!(a.line_selects("</div>"));
    assert!(a.line_selects("a/>"));
    assert!(!a.line_selects("<div>"));
    assert!(!a.line_selects("a / b >"));
    assert!(preset(Modo::JsxAJs).line_selects("anything"));
}

#[test]
fn pattern_compile_and_match() {
    let p = renombrar::Pattern::compile(renombrar::CLOSING_TAG).unwrap();
    assert!(p.is_match("x </em> y"));
    assert!(!p.is_match("no tag"));
    assert!(renombrar::Pattern::compile("(").is_none());
}
