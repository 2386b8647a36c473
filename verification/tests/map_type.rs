use sync_async::ast::{GenericArgument, Ident, Path, PathArguments, PathSegment, Span, Tokens, Type};
use sync_async::map::map_type::{parse_ident, parse_path, path_from_names};
use sync_async::map::map_type::{map_type_with_names, self_names};
use sync_async::map::{map_type, map_type_to_ident, SyncAsyncIdentOfType, SyncAsyncType};
use sync_async::{ErrorKind, ExpandError, PathWithoutArgs};

const HERE: Span = Span { id: 11 };
const REST: Tokens = Tokens { id: 5 };

fn not_a_name(span: Span) -> ExpandError {
    ExpandError { kind: ErrorKind::SelfTypeName, span }
}

fn names(ident: &str, sync_ident: &str, async_ident: &str) -> SyncAsyncIdentOfType {
    SyncAsyncIdentOfType {
        sync_ident: sync_ident.to_string(),
        async_ident: async_ident.to_string(),
        ident: ident.to_string(),
    }
}

#[test]
fn name_of_a_plain_type() {
    assert_eq!(map_type_to_ident("Foo"), Ok(names("Foo", "SyncFoo", "AsyncFoo")));
}

#[test]
fn name_of_a_generic_type_ends_before_the_angle() {
    assert_eq!(map_type_to_ident("Foo < T , U >"), Ok(names("Foo", "SyncFoo", "AsyncFoo")));
    assert_eq!(map_type_to_ident("Foo<Bar<T>>"), Ok(names("Foo", "SyncFoo", "AsyncFoo")));
}

#[test]
fn spaces_are_taken_out_of_the_name() {
    assert_eq!(map_type_to_ident(" a :: Foo "), Ok(names("a::Foo", "Synca::Foo", "Asynca::Foo")));
    assert_eq!(map_type_to_ident("dyn Foo"), Ok(names("dynFoo", "SyncdynFoo", "AsyncdynFoo")));
}

#[test]
fn name_of_nothing_is_empty() {
    assert_eq!(map_type_to_ident(""), Ok(names("", "Sync", "Async")));
    assert_eq!(map_type_to_ident("<T as X>::Y"), Ok(names("", "Sync", "Async")));
}

#[test]
fn text_that_is_not_ascii_is_kept_in_the_name() {
    assert_eq!(map_type_to_ident("Größe<T>"), Ok(names("Größe", "SyncGröße", "AsyncGröße")));
}

#[test]
fn identifier_is_read() {
    assert_eq!(parse_ident("Foo"), Some(Ident::new("Foo", Span::call_site())));
    assert_eq!(parse_ident(" Foo "), Some(Ident::new("Foo", Span::call_site())));
    assert_eq!(parse_ident("r#type"), Some(Ident::new("r#type", Span::call_site())));
}

#[test]
fn what_is_no_identifier_is_rejected() {
    for text in ["", "a::Foo", "&Foo", "Foo<T>", "type", "self", "1a", "a b", "_"] {
        assert_eq!(parse_ident(text), None, "{}", text);
    }
}

fn path(names: &[&str], leading_colon: bool) -> PathWithoutArgs {
    PathWithoutArgs::from_idents(
        names.iter().map(|n| Ident::new(n, Span::call_site())).collect(),
        leading_colon,
    )
}

#[test]
fn path_is_read() {
    assert_eq!(parse_path("SyncFoo"), Some(path(&["SyncFoo"], false)));
    assert_eq!(parse_path("a::b::C"), Some(path(&["a", "b", "C"], false)));
    assert_eq!(parse_path("::a :: C"), Some(path(&["a", "C"], true)));
}

#[test]
fn what_is_no_path_is_rejected() {
    for text in ["", "::", "a::", "a::<T>::b", "a<T>", "a::self", "crate::a", "super", "Self::a", "a::type", "a b", "Syncr#type"] {
        assert_eq!(parse_path(text), None, "{}", text);
    }
}

#[test]
fn path_from_names_checks_the_names() {
    let strings = |names: &[&str]| names.iter().map(|n| n.to_string()).collect::<Vec<String>>();
    assert_eq!(path_from_names(true, strings(&["a", "B"])), Some(path(&["a", "B"], true)));
    assert_eq!(path_from_names(false, strings(&[])), None);
    assert_eq!(path_from_names(false, strings(&["a", "self"])), None);
    assert_eq!(path_from_names(false, strings(&["super", "a"])), None);
    assert_eq!(path_from_names(false, strings(&["Self"])), None);
    assert_eq!(path_from_names(false, strings(&["crate"])), None);
    assert_eq!(path_from_names(false, strings(&["selfish"])), Some(path(&["selfish"], false)));
}

fn generic(name: &str, span: Span, arg: Type) -> Type {
    Type::Path {
        qself: None,
        path: Path {
            leading_colon: false,
            segments: vec![PathSegment {
                ident: Ident::new(name, span),
                arguments: PathArguments::AngleBracketed {
                    args: vec![GenericArgument::Type { ty: arg }],
                    rest: REST,
                },
            }],
        },
    }
}

fn plain(name: &str) -> Type {
    Type::Path {
        qself: None,
        path: Path {
            leading_colon: false,
            segments: vec![PathSegment { ident: Ident::new(name, HERE), arguments: PathArguments::Empty }],
        },
    }
}

#[test]
fn self_type_is_renamed_for_both_variants() {
    let result = map_type(generic("Foo", HERE, plain("T")), "Foo < T >");
    assert_eq!(
        result,
        Ok(SyncAsyncType {
            sync_ty: generic("SyncFoo", HERE, plain("T")),
            async_ty: generic("AsyncFoo", HERE, plain("T")),
        })
    );
}

#[test]
fn self_type_inside_its_own_arguments_is_renamed_too() {
    let result = map_type(generic("Foo", HERE, plain("Foo")), "Foo < Foo >").unwrap();
    assert_eq!(result.sync_ty, generic("SyncFoo", HERE, plain("SyncFoo")));
    assert_eq!(result.async_ty, generic("AsyncFoo", HERE, plain("AsyncFoo")));
}

#[test]
fn self_type_without_a_plain_name_is_rejected() {
    let reference = Type::Reference { elem: Box::new(plain("Foo")), rest: REST };
    assert_eq!(map_type(reference, "& Foo"), Err(not_a_name(HERE)));
    assert_eq!(map_type(plain("Foo"), "a :: Foo"), Err(not_a_name(HERE)));
    assert_eq!(map_type(plain("r#type"), "r#type"), Err(not_a_name(HERE)));
    let pair = Type::Tuple { elems: vec![plain("A"), plain("B")] };
    assert_eq!(map_type(pair, "( A , B )"), Err(not_a_name(Span::call_site())));
}

#[test]
fn names_of_a_self_type() {
    assert_eq!(
        self_names("Foo < T >"),
        Some((Ident::new("Foo", Span::call_site()), path(&["SyncFoo"], false), path(&["AsyncFoo"], false)))
    );
    for text in ["", "& Foo", "a :: Foo", "r#type", "( A , B )", "_"] {
        assert_eq!(self_names(text), None, "{}", text);
    }
}

#[test]
fn type_is_renamed_by_the_names_that_are_given() {
    let from = Ident::new("Foo", Span::call_site());
    let result = map_type_with_names(
        generic("Foo", HERE, plain("Bar")),
        &from,
        &path(&["a", "S"], true),
        &path(&["A"], false),
    );
    let seg = |name: &str, span: Span, arguments: PathArguments| PathSegment {
        ident: Ident::new(name, span),
        arguments,
    };
    let args = || PathArguments::AngleBracketed {
        args: vec![GenericArgument::Type { ty: plain("Bar") }],
        rest: REST,
    };
    assert_eq!(
        result.sync_ty,
        Type::Path {
            qself: None,
            path: Path {
                leading_colon: true,
                segments: vec![
                    seg("a", Span::call_site(), PathArguments::Empty),
                    seg("S", HERE, args()),
                ],
            },
        }
    );
    assert_eq!(result.async_ty, generic("A", HERE, plain("Bar")));
}

#[test]
fn type_without_the_name_stays_as_it_is() {
    let from = Ident::new("Foo", Span::call_site());
    let result = map_type_with_names(plain("Bar"), &from, &path(&["S"], false), &path(&["A"], false));
    assert_eq!(result, SyncAsyncType { sync_ty: plain("Bar"), async_ty: plain("Bar") });
}

#[test]
fn place_of_a_type() {
    let far = Span { id: 77 };
    let two = Type::Path {
        qself: None,
        path: Path {
            leading_colon: false,
            segments: vec![
                PathSegment { ident: Ident::new("a", far), arguments: PathArguments::Empty },
                PathSegment { ident: Ident::new("B", HERE), arguments: PathArguments::Empty },
            ],
        },
    };
    assert_eq!(two.place(), far);
    assert_eq!(plain("Foo").place(), HERE);
    assert_eq!(Type::Reference { elem: Box::new(plain("Foo")), rest: REST }.place(), HERE);
    assert_eq!(Type::Ptr { elem: Box::new(plain("Foo")), rest: REST }.place(), HERE);
    assert_eq!(Type::Array { elem: Box::new(plain("Foo")), rest: REST }.place(), HERE);
    assert_eq!(Type::Slice { elem: Box::new(plain("Foo")) }.place(), HERE);
    assert_eq!(Type::Paren { elem: Box::new(plain("Foo")) }.place(), HERE);
    assert_eq!(
        Type::Group { elem: Box::new(Type::Slice { elem: Box::new(plain("Foo")) }) }.place(),
        HERE
    );
    assert_eq!(Type::Tuple { elems: vec![plain("Foo")] }.place(), Span::call_site());
    assert_eq!(Type::Other { rest: REST }.place(), Span::call_site());
    let empty = Type::Path { qself: None, path: Path { leading_colon: false, segments: vec![] } };
    assert_eq!(empty.place(), Span::call_site());
}
