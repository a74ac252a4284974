use crate::descriptor::ImageDescription;
use crate::encode::encoded_len_fits;
use crate::errors::EmbedError;
use crate::fragment::{image_fragment, produce_doc_string_for_image};
use vstd::prelude::*;

verus! {

/// The syntactic category of a declaration an image annotation decorates.
/// All categories but `Other` are supported; `Other` stands for anything
/// else handed to the annotation, such as a bare statement or expression.
#[derive(Clone, Copy, Debug, PartialEq, Eq, Structural)]
pub enum DeclKind {
    Const,
    Enum,
    ExternCrate,
    Fn,
    ForeignMod,
    Impl,
    Macro,
    Macro2,
    Mod,
    Static,
    Struct,
    Trait,
    TraitAlias,
    Type,
    Union,
    Use,
    Other,
}

/// Whether declarations of this category accept the annotation.
pub open spec fn is_supported(kind: DeclKind) -> bool {
    kind != DeclKind::Other
}

/// A target declaration, reduced to what the rewriter reads and writes:
/// its syntactic category and its accumulated documentation lines, one
/// string per documentation attribute. The declaration's body and its
/// other attributes are not represented here because the rewriter never
/// touches them; the caller keeps them as they are.
#[derive(Debug)]
pub struct Declaration {
    pub kind: DeclKind,
    pub docs: Vec<String>,
}

/// The documentation lines of a declaration, as character sequences.
pub open spec fn docs_of(decl: Declaration) -> Seq<Seq<char>> {
    decl.docs.deep_view()
}

impl Declaration {
    pub fn new(kind: DeclKind) -> (r: Self)
        ensures
            r.kind == kind,
            docs_of(r) == Seq::<Seq<char>>::empty(),
    {
        let r = Declaration { kind, docs: Vec::new() };
        proof {
            assert(docs_of(r) =~= Seq::<Seq<char>>::empty());
        }
        r
    }
}

/// Rewrites a declaration for one image annotation: appends a blank
/// documentation line (so the host renderer parses what follows as a
/// link-reference table) and then the documentation fragment for the
/// image. Everything modelled of the declaration other than its
/// documentation lines is left unchanged, and on any error the
/// declaration is left entirely unchanged.
pub fn embed_doc_image(desc: &ImageDescription, bytes: &[u8], decl: &mut Declaration) -> (r:
    Result<(), EmbedError>)
    requires
        encoded_len_fits(bytes@.len()),
    ensures
        final(decl).kind == old(decl).kind,
        match r {
            Ok(_) => is_supported(old(decl).kind) && (image_fragment(
                desc.label@,
                desc.path@,
                bytes@,
            ) matches Some(f) && docs_of(*final(decl)) == docs_of(*old(decl)) + seq![
                Seq::<char>::empty(),
                f,
            ]),
            Err(e) => docs_of(*final(decl)) == docs_of(*old(decl)) && ((e
                == EmbedError::UnsupportedExtension && image_fragment(
                desc.label@,
                desc.path@,
                bytes@,
            ) is None) || (e == EmbedError::UnsupportedDeclaration && image_fragment(
                desc.label@,
                desc.path@,
                bytes@,
            ) is Some && !is_supported(old(decl).kind))),
        },
{
    let fragment = match produce_doc_string_for_image(desc, bytes) {
        Ok(s) => s,
        Err(e) => {
            return Err(e);
        },
    };
    if matches!(decl.kind, DeclKind::Other) {
        return Err(EmbedError::UnsupportedDeclaration);
    }
    let ghost docs0 = docs_of(*decl);
    decl.docs.push(String::new());
    decl.docs.push(fragment);
    proof {
        assert(docs_of(*decl) =~= docs0 + seq![
            Seq::<char>::empty(),
            image_fragment(desc.label@, desc.path@, bytes@)->Some_0,
        ]);
    }
    Ok(())
}

} // verus!
