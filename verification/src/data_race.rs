//! A generator of shaders for testing how implementations handle racing accesses to
//! shared memory.
use crate::ast::builtins::BuiltinValue;
use crate::ast::expr::{Expr, ExprNode, Lit, Postfix};
use crate::ast::func::{FnAttr, FnDecl, FnIOAttr, FnInput, ShaderStage};
use crate::ast::globals::{GlobalVarAttr, GlobalVarDecl, VarQualifier};
use crate::ast::module::Module;
use crate::ast::stmt::{AssignmentLhs, AssignmentOp, AssignmentStatement, LhsExpr, LhsExprNode, Statement};
use crate::ast::types::{AccessMode, DataType, MemoryViewType, ScalarType, StorageClass};
use rand::rngs::StdRng;
use std::rc::Rc;
use vstd::prelude::*;
use vstd::string::StringExecFns;

verus! {

/// Options of the data race generator.
pub struct Options {
    /// Seed of the random generator, if one is given.
    pub seed: Option<u64>,
    /// Print the syntax tree instead of shader source.
    pub debug: bool,
    /// Logging configuration.
    pub log: Option<String>,
    /// Number of literals to generate.
    pub num_lits: u32,
    /// Least number of statements to generate.
    pub min_stmts: u32,
    /// Greatest number of statements to generate.
    pub max_stmts: u32,
    /// Least number of local variables to generate.
    pub min_vars: u32,
    /// Greatest number of local variables to generate.
    pub max_vars: u32,
    /// Number of memory locations associated with each thread.
    pub locs_per_thread: u32,
    /// Path to the output file (`-` for the standard output).
    pub output: String,
}

/// The data race generator.
pub struct Generator<'a> {
    pub rng: &'a mut StdRng,
    pub options: Rc<Options>,
}

/// The literal `v` of type `u32`, as an expression.
pub open spec fn u32_node(v: u32) -> ExprNode {
    ExprNode { data_type: DataType::Scalar(ScalarType::U32), expr: Expr::Lit(Lit::U32(v)) }
}

/// The buffer `mem` that the generated shader writes: one `u32`, read and written in
/// storage memory at group 0, binding 0.
pub open spec fn is_mem_var(v: GlobalVarDecl) -> bool {
    &&& v.attrs@ == seq![GlobalVarAttr::Group(0), GlobalVarAttr::Binding(0)]
    &&& v.qualifier == Some(
        VarQualifier { storage_class: StorageClass::Storage, access_mode: Some(AccessMode::ReadWrite) },
    )
    &&& v.name@ == "mem"@
    &&& v.data_type == DataType::Array(Rc::new(DataType::Scalar(ScalarType::U32)), Some(1))
    &&& v.initializer is None
}

/// The statement `mem[0u] = 1u;`, with `mem` a reference to a runtime-sized array of
/// `u32` in storage memory.
pub open spec fn is_mem_store(s: Statement) -> bool {
    let array_ref = DataType::Ref(
        MemoryViewType {
            inner: Rc::new(DataType::Array(Rc::new(DataType::Scalar(ScalarType::U32)), None)),
            storage_class: StorageClass::Storage,
            access_mode: AccessMode::Read,
        },
    );
    &&& s matches Statement::Assignment(a)
    &&& a.op == AssignmentOp::Simple
    &&& a.rhs == u32_node(1)
    &&& a.lhs matches AssignmentLhs::Expr(n)
    &&& n.expr matches LhsExpr::Postfix(base, Postfix::Index(index))
    &&& *index == u32_node(0)
    &&& base.data_type == array_ref
    &&& base.expr matches LhsExpr::Ident(name)
    &&& name@ == "mem"@
}

/// An input of the entry point bound to the built-in value `v`, of type `vec3<u32>`.
pub open spec fn is_builtin_input(i: FnInput, name: Seq<char>, v: BuiltinValue) -> bool {
    &&& i.attrs@ == seq![FnIOAttr::Builtin(v)]
    &&& i.name@ == name
    &&& i.data_type == DataType::Vector(3, ScalarType::U32)
}

/// The entry point `main`: a compute shader of workgroup size 1, taking the
/// workgroup id and the local invocation id, that stores into `mem`.
pub open spec fn is_race_entry_point(f: FnDecl) -> bool {
    &&& f.attrs@.len() == 2
    &&& f.attrs@[0] == FnAttr::Stage(ShaderStage::Compute)
    &&& f.attrs@[1] matches FnAttr::WorkgroupSize(size)
    &&& size@ == seq![u32_node(1)]
    &&& f.name@ == "main"@
    &&& f.inputs@.len() == 2
    &&& is_builtin_input(f.inputs@[0], "workgroup_id"@, BuiltinValue::WorkgroupId)
    &&& is_builtin_input(f.inputs@[1], "local_invocation_id"@, BuiltinValue::LocalInvocationId)
    &&& f.output is None
    &&& f.body@.len() == 1
    &&& is_mem_store(f.body@[0])
}

fn u32_lit(v: u32) -> (r: ExprNode)
    ensures
        r == u32_node(v),
{
    ExprNode { data_type: DataType::Scalar(ScalarType::U32), expr: Expr::Lit(Lit::U32(v)) }
}

impl<'a> Generator<'a> {
    pub fn new(rng: &'a mut StdRng, options: Rc<Options>) -> (r: Generator<'a>)
        ensures
            r.options == options,
    {
        Generator { rng, options }
    }

    /// The module the generator writes: the buffer `mem` and an entry point that
    /// stores into it.
    pub fn gen_module(&mut self) -> (r: Module)
        ensures
            r.structs@.len() == 0,
            r.consts@.len() == 0,
            r.vars@.len() == 1,
            is_mem_var(r.vars@[0]),
            r.functions@.len() == 1,
            is_race_entry_point(r.functions@[0]),
    {
        let mem = GlobalVarDecl {
            attrs: vec![GlobalVarAttr::Group(0), GlobalVarAttr::Binding(0)],
            qualifier: Some(
                VarQualifier { storage_class: StorageClass::Storage, access_mode: Some(AccessMode::ReadWrite) },
            ),
            name: String::from_str("mem"),
            data_type: DataType::Array(Rc::new(DataType::Scalar(ScalarType::U32)), Some(1)),
            initializer: None,
        };
        assert(mem.attrs@ =~= seq![GlobalVarAttr::Group(0), GlobalVarAttr::Binding(0)]);
        let global_vars = vec![mem];

        let array_type = DataType::Ref(
            MemoryViewType::new(DataType::Array(Rc::new(DataType::Scalar(ScalarType::U32)), None), StorageClass::Storage),
        );
        let target = LhsExprNode::array_index(String::from_str("mem"), array_type, u32_lit(0));
        let store = AssignmentStatement::new(AssignmentLhs::Expr(target), AssignmentOp::Simple, u32_lit(1));
        let block: Vec<Statement> = vec![Statement::Assignment(store)];

        let mut local_invocation_id = FnInput::new(
            String::from_str("local_invocation_id"),
            DataType::Vector(3, ScalarType::U32),
        );
        local_invocation_id.attrs.push(FnIOAttr::Builtin(BuiltinValue::LocalInvocationId));
        let mut workgroup_id = FnInput::new(String::from_str("workgroup_id"), DataType::Vector(3, ScalarType::U32));
        workgroup_id.attrs.push(FnIOAttr::Builtin(BuiltinValue::WorkgroupId));
        assert(local_invocation_id.attrs@ =~= seq![FnIOAttr::Builtin(BuiltinValue::LocalInvocationId)]);
        assert(workgroup_id.attrs@ =~= seq![FnIOAttr::Builtin(BuiltinValue::WorkgroupId)]);

        let size = vec![u32_lit(1)];
        assert(size@ =~= seq![u32_node(1)]);
        let entrypoint = FnDecl {
            attrs: vec![FnAttr::Stage(ShaderStage::Compute), FnAttr::WorkgroupSize(size)],
            name: String::from_str("main"),
            inputs: vec![workgroup_id, local_invocation_id],
            output: None,
            body: block,
        };

        let functions = vec![entrypoint];

        Module { structs: Vec::new(), consts: Vec::new(), vars: global_vars, functions }
    }
}

} // verus!
