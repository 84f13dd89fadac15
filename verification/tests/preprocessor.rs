use wgslsmith::ast::writer::Options;
use wgslsmith::preprocessor::preprocess;
use wgslsmith::strings::replace;

#[test]
fn compute_stage_attributes_are_shortened() {
    let options = Options { module_scope_constants: false, concise_stage_attrs: true };
    let shader = "@stage(compute)\n@workgroup_size(1)\nfn main() {}\n".to_string();
    assert_eq!(preprocess(options, shader), "@compute\n@workgroup_size(1)\nfn main() {}\n");
    let options = Options { module_scope_constants: false, concise_stage_attrs: false };
    assert_eq!(preprocess(options, "@stage(compute)".to_string()), "@stage(compute)");
}

#[test]
fn replacement_is_left_to_right_without_overlap() {
    assert_eq!(replace("aaa", "aa", "b"), "aaa".replace("aa", "b"));
    assert_eq!(replace("abcabc", "bc", "x"), "axax");
    assert_eq!(replace("", "a", "b"), "");
}
