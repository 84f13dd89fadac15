use crate::ast::expr::ExprNode;
use crate::ast::types::{AccessMode, DataType, StorageClass};
use vstd::prelude::*;

verus! {

#[derive(Clone, Copy, Debug, PartialEq, Eq, Structural)]
pub enum GlobalVarAttr {
    Binding(i32),
    Group(i32),
}

#[derive(Debug)]
pub struct VarQualifier {
    pub storage_class: StorageClass,
    pub access_mode: Option<AccessMode>,
}

#[derive(Debug)]
pub struct GlobalVarDecl {
    pub attrs: Vec<GlobalVarAttr>,
    pub qualifier: Option<VarQualifier>,
    pub name: String,
    pub data_type: DataType,
    pub initializer: Option<ExprNode>,
}

#[derive(Debug)]
pub struct GlobalConstDecl {
    pub name: String,
    pub data_type: DataType,
    pub initializer: ExprNode,
}

/// The value of the first `group` attribute, if any.
pub open spec fn spec_group_index(attrs: Seq<GlobalVarAttr>) -> Option<u32>
    decreases attrs.len(),
{
    if attrs.len() == 0 {
        None
    } else {
        match attrs[0] {
            GlobalVarAttr::Group(v) => Some(#[verifier::truncate] (v as u32)),
            _ => spec_group_index(attrs.drop_first()),
        }
    }
}

/// The value of the first `binding` attribute, if any.
pub open spec fn spec_binding_index(attrs: Seq<GlobalVarAttr>) -> Option<u32>
    decreases attrs.len(),
{
    if attrs.len() == 0 {
        None
    } else {
        match attrs[0] {
            GlobalVarAttr::Binding(v) => Some(#[verifier::truncate] (v as u32)),
            _ => spec_binding_index(attrs.drop_first()),
        }
    }
}

impl GlobalVarDecl {
    pub fn group_index(&self) -> (r: Option<u32>)
        ensures
            r == spec_group_index(self.attrs@),
    {
        let mut i: usize = 0;
        assert(self.attrs@.skip(0) =~= self.attrs@);
        while i < self.attrs.len()
            invariant
                i <= self.attrs.len(),
                spec_group_index(self.attrs@) == spec_group_index(self.attrs@.skip(i as int)),
            decreases self.attrs.len() - i,
        {
            assert(self.attrs@.skip(i as int).drop_first() =~= self.attrs@.skip(i + 1));
            if let GlobalVarAttr::Group(v) = self.attrs[i] {
                return Some(#[verifier::truncate] (v as u32));
            }
            i = i + 1;
        }
        None
    }

    pub fn binding_index(&self) -> (r: Option<u32>)
        ensures
            r == spec_binding_index(self.attrs@),
    {
        let mut i: usize = 0;
        assert(self.attrs@.skip(0) =~= self.attrs@);
        while i < self.attrs.len()
            invariant
                i <= self.attrs.len(),
                spec_binding_index(self.attrs@) == spec_binding_index(self.attrs@.skip(i as int)),
            decreases self.attrs.len() - i,
        {
            assert(self.attrs@.skip(i as int).drop_first() =~= self.attrs@.skip(i + 1));
            if let GlobalVarAttr::Binding(v) = self.attrs[i] {
                return Some(#[verifier::truncate] (v as u32));
            }
            i = i + 1;
        }
        None
    }
}

} // verus!
