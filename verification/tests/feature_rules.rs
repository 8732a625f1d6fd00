use auto_enums::ast::{Path, Segment};
use auto_enums::transpose::check_fields;
use auto_enums::type_analysis::{collect_impl_trait, is_known_trait, TypeModel};

fn path(names: &[&str], args_on_last: bool, handle: u64) -> Path {
    let n = names.len();
    Path {
        leading_colon: false,
        segments: names
            .iter()
            .enumerate()
            .map(|(i, s)| Segment { ident: s.to_string(), has_args: args_on_last && i + 1 == n })
            .collect(),
        handle,
    }
}

fn idents(p: &Path) -> Vec<String> {
    p.segments.iter().map(|s| s.ident.clone()).collect()
}

#[test]
fn known_traits() {
    assert!(is_known_trait(&path(&["Iterator"], true, 0)));
    assert!(is_known_trait(&path(&["fmt", "Debug"], false, 0)));
    assert!(is_known_trait(&path(&["io", "Write"], false, 0)));
    assert!(is_known_trait(&path(&["error", "Error"], false, 0)));
    assert!(!is_known_trait(&path(&["std", "fmt", "Debug"], false, 0)));
    assert!(!is_known_trait(&path(&["fmt", "Read"], false, 0)));
    assert!(!is_known_trait(&path(&["MyTrait"], false, 0)));
}

#[test]
fn impl_trait_bounds_are_collected() {
    // `impl Iterator<Item = i32> + fmt::Debug + Send`, with no arguments.
    let ty = TypeModel {
        bounds: vec![path(&["Iterator"], true, 1), path(&["fmt", "Debug"], false, 2), path(&["Send"], false, 3)],
    };
    let mut traits = vec![path(&["Clone"], false, 9)];
    let added = collect_impl_trait(&vec![], &mut traits, &ty);
    assert!(added);
    let got: Vec<Vec<String>> = traits.iter().map(idents).collect();
    assert_eq!(
        got,
        vec![vec!["Clone".to_string()], vec!["Iterator".to_string()], vec!["fmt".to_string(), "Debug".to_string()]]
    );
    // Generic arguments are stripped.
    assert!(!traits[1].segments[0].has_args);
    assert_eq!(traits[1].handle, 1);
}

#[test]
fn impl_trait_named_by_an_argument_is_skipped() {
    // `#[auto_enum(Iterator)]` on `fn f() -> impl Iterator<Item = i32>`.
    let ty = TypeModel { bounds: vec![path(&["Iterator"], true, 1)] };
    let mut traits = vec![];
    let added = collect_impl_trait(&vec![path(&["Iterator"], false, 5)], &mut traits, &ty);
    assert!(!added);
    assert!(traits.is_empty());
}

#[test]
fn transpose_fields_must_be_the_generics() {
    let g = vec!["A".to_string(), "B".to_string()];
    assert!(check_fields(&g, &vec![Some("A".to_string()), Some("B".to_string())]));
    assert!(!check_fields(&g, &vec![Some("B".to_string()), Some("A".to_string())]));
    assert!(!check_fields(&g, &vec![Some("A".to_string())]));
    assert!(!check_fields(&g, &vec![Some("A".to_string()), None]));
    assert!(!check_fields(&g, &vec![Some("A".to_string()), Some("i32".to_string())]));
    assert!(check_fields(&vec![], &vec![]));
}
