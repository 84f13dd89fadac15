use rand::rngs::StdRng;
use rand::SeedableRng;
use std::rc::Rc;
use wgslsmith::ast::writer::Writer;
use wgslsmith::data_race::{Generator, Options};

#[test]
fn data_race_module_stores_into_mem() {
    let options = Options {
        seed: Some(1),
        debug: false,
        log: None,
        num_lits: 5,
        min_stmts: 5,
        max_stmts: 5,
        min_vars: 5,
        max_vars: 5,
        locs_per_thread: 5,
        output: "-".to_string(),
    };
    let mut rng = StdRng::seed_from_u64(1);
    let module = Generator::new(&mut rng, Rc::new(options)).gen_module();
    let mut out = String::new();
    Writer::default().write_module(&mut out, &|b: u32| format!("{}", f32::from_bits(b)), &module);
    let expected = "@group(0)\n@binding(0)\nvar<storage, read_write> mem: array<u32, 1>;\n\n\
@compute\n@workgroup_size(1u)\n\
fn main(@builtin(workgroup_id) workgroup_id: vec3<u32>, @builtin(local_invocation_id) local_invocation_id: vec3<u32>) \
{\n    (mem)[0u] = 1u;\n}\n\n";
    assert_eq!(out, expected);
}
