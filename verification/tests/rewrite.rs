use embed_doc_image::descriptor::ImageDescription;
use embed_doc_image::errors::EmbedError;
use embed_doc_image::rewrite::{embed_doc_image, DeclKind, Declaration};

fn sample_desc() -> ImageDescription {
    ImageDescription::new("pic".to_owned(), "images/pic.png".to_owned())
}

#[test]
fn rewrite_appends_separator_and_fragment() {
    let mut decl = Declaration {
        kind: DeclKind::Fn,
        docs: vec!["Frobnicates the bar.".to_owned(), "".to_owned(), "More prose.".to_owned()],
    };
    let r = embed_doc_image(&sample_desc(), &[1u8, 2, 3], &mut decl);
    assert_eq!(r, Ok(()));
    assert_eq!(decl.kind, DeclKind::Fn);
    assert_eq!(
        decl.docs,
        vec![
            "Frobnicates the bar.".to_owned(),
            "".to_owned(),
            "More prose.".to_owned(),
            "".to_owned(),
            " [pic]: data:image/png;base64,AQID".to_owned(),
        ]
    );
}

#[test]
fn rewrite_supports_every_declaration_category() {
    let kinds = [
        DeclKind::Const,
        DeclKind::Enum,
        DeclKind::ExternCrate,
        DeclKind::Fn,
        DeclKind::ForeignMod,
        DeclKind::Impl,
        DeclKind::Macro,
        DeclKind::Macro2,
        DeclKind::Mod,
        DeclKind::Static,
        DeclKind::Struct,
        DeclKind::Trait,
        DeclKind::TraitAlias,
        DeclKind::Type,
        DeclKind::Union,
        DeclKind::Use,
    ];
    for kind in kinds {
        let mut decl = Declaration::new(kind);
        let r = embed_doc_image(&sample_desc(), &[], &mut decl);
        assert_eq!(r, Ok(()), "kind {kind:?}");
        assert_eq!(decl.kind, kind);
        assert_eq!(decl.docs.len(), 2);
        assert_eq!(decl.docs[0], "");
    }
}

#[test]
fn statement_position_is_rejected_unchanged() {
    let mut decl = Declaration {
        kind: DeclKind::Other,
        docs: vec!["prose".to_owned()],
    };
    let r = embed_doc_image(&sample_desc(), &[1u8, 2, 3], &mut decl);
    assert_eq!(r, Err(EmbedError::UnsupportedDeclaration));
    assert_eq!(decl.kind, DeclKind::Other);
    assert_eq!(decl.docs, vec!["prose".to_owned()]);
}

#[test]
fn extension_error_precedes_declaration_error() {
    // The fragment is produced before the declaration category is examined,
    // so a bad extension is reported even on an unsupported declaration.
    let desc = ImageDescription::new("pic".to_owned(), "images/pic.xyz".to_owned());
    let mut decl = Declaration::new(DeclKind::Other);
    let r = embed_doc_image(&desc, &[1u8], &mut decl);
    assert_eq!(r, Err(EmbedError::UnsupportedExtension));
    assert!(decl.docs.is_empty());
}

#[test]
fn repeated_annotations_append_in_order() {
    let mut decl = Declaration::new(DeclKind::Struct);
    let first = ImageDescription::new("one".to_owned(), "a.png".to_owned());
    let second = ImageDescription::new("two".to_owned(), "b.gif".to_owned());
    embed_doc_image(&first, &[1u8, 2, 3], &mut decl).unwrap();
    embed_doc_image(&second, &[4u8, 5], &mut decl).unwrap();
    assert_eq!(
        decl.docs,
        vec![
            "".to_owned(),
            " [one]: data:image/png;base64,AQID".to_owned(),
            "".to_owned(),
            format!(" [two]: data:image/gif;base64,{}", base64::encode([4u8, 5])),
        ]
    );
}
