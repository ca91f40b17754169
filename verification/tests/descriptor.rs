use noak::descriptor::{BaseType, MethodDescriptor, TypeDescriptor};
use noak::MString;

#[test]
fn valid_type() {
    fn eq(s: &str, td: TypeDescriptor<'_>) {
        let m: MString = s.into();
        assert_eq!(TypeDescriptor::parse(m.as_mstr()).unwrap(), td);
    }

    let string = MString::from("java/lang/String");
    eq("Z", TypeDescriptor { base: BaseType::Boolean, dimensions: 0 });
    eq("B", TypeDescriptor { base: BaseType::Byte, dimensions: 0 });
    eq("S", TypeDescriptor { base: BaseType::Short, dimensions: 0 });
    eq("I", TypeDescriptor { base: BaseType::Integer, dimensions: 0 });
    eq("J", TypeDescriptor { base: BaseType::Long, dimensions: 0 });
    eq("F", TypeDescriptor { base: BaseType::Float, dimensions: 0 });
    eq("D", TypeDescriptor { base: BaseType::Double, dimensions: 0 });
    eq(
        "Ljava/lang/String;",
        TypeDescriptor { base: BaseType::Object(string.as_mstr()), dimensions: 0 },
    );
    eq("[D", TypeDescriptor { base: BaseType::Double, dimensions: 1 });
    eq(
        "[[Ljava/lang/String;",
        TypeDescriptor { base: BaseType::Object(string.as_mstr()), dimensions: 2 },
    );
    eq("[[[[[[[[[[[[[[[[[[F", TypeDescriptor { base: BaseType::Float, dimensions: 18 });
    eq(&("[".repeat(255) + "I"), TypeDescriptor { base: BaseType::Integer, dimensions: 255 });
}

#[test]
fn invalid_type() {
    fn check(s: &str) {
        let m: MString = s.into();
        TypeDescriptor::parse(m.as_mstr()).unwrap_err();
    }

    check("");
    check("X");
    check("JJ");
    check("[");
    check("[]JJ");
    check(&("[".repeat(256) + "I"));
    check("L;");
    check("Ljava/lang/Object;;");
}

#[test]
fn valid_method_descriptor() {
    fn eq(s: &str, parameters: &[TypeDescriptor<'_>], return_type: Option<TypeDescriptor<'_>>) {
        let m: MString = s.into();
        let desc = MethodDescriptor::parse(m.as_mstr()).unwrap();

        assert_eq!(desc.parameters(), parameters);
        assert_eq!(desc.return_type(), return_type);
    }

    let foo = MString::from("Foo");
    let bar = MString::from("Bar");
    eq("()V", &[], None);
    eq("(I)V", &[TypeDescriptor { dimensions: 0, base: BaseType::Integer }], None);
    eq(
        "([[IF)V",
        &[
            TypeDescriptor { dimensions: 2, base: BaseType::Integer },
            TypeDescriptor { dimensions: 0, base: BaseType::Float },
        ],
        None,
    );
    eq(
        "(I)F",
        &[TypeDescriptor { dimensions: 0, base: BaseType::Integer }],
        Some(TypeDescriptor { dimensions: 0, base: BaseType::Float }),
    );
    eq("(LFoo;)V", &[TypeDescriptor { dimensions: 0, base: BaseType::Object(foo.as_mstr()) }], None);
    eq("()LBar;", &[], Some(TypeDescriptor { dimensions: 0, base: BaseType::Object(bar.as_mstr()) }));
    eq(
        "(LFoo;)LBar;",
        &[TypeDescriptor { dimensions: 0, base: BaseType::Object(foo.as_mstr()) }],
        Some(TypeDescriptor { dimensions: 0, base: BaseType::Object(bar.as_mstr()) }),
    );
}

#[test]
fn invalid_method_descriptor() {
    fn check(s: &str) {
        let m: MString = s.into();
        assert!(MethodDescriptor::parse(m.as_mstr()).is_err());
    }

    check("");
    check("()");
    check("I)F");
    check("{I)F");
    check("F");
    check("(V)V");
    check("(L)V");
    check("(L;)V");
    check("(L;;)V");
    check("()LHmm");
    check("(L");
    check(&format!("({}I)V", "[".repeat(256)));
}
