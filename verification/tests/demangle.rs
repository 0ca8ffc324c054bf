use jitdump_agent::demangle::render::SourceForm;
use jitdump_agent::demangle::{BinaryName, ClassType, FieldType, MethodType, ScalarFieldType};

#[test]
fn test_demangle_binary_name_valid() {
    assert_eq!(BinaryName::new("java/lang/Thread").unwrap(),
               BinaryName{packages: vec!["java".to_owned(), "lang".to_owned()], class: "Thread".to_owned()});
    assert_eq!(BinaryName::new("java/lang/Threaд").unwrap(),
               BinaryName{packages: vec!["java".to_owned(), "lang".to_owned()], class: "Threaд".to_owned()});
    assert_eq!(BinaryName::new("Thread").unwrap(),
               BinaryName{packages: vec![], class: "Thread".to_owned()});
    assert_eq!(BinaryName::new("").unwrap(),
               BinaryName{packages: vec![], class: "".to_owned()});
}

#[test]
fn test_demangle_binary_name_invalid() {
    assert!(BinaryName::new("java/lang/Thread/").is_err());
    assert!(BinaryName::new("/java/lang/Thread").is_err());
    assert!(BinaryName::new("/").is_err());
    assert!(BinaryName::new("//").is_err());
    assert!(BinaryName::new("java//lang/Thread").is_err());
}

#[test]
fn test_demangle_class_type_valid() {
    assert_eq!(ClassType::new("Ljava/lang/Thread;").unwrap(),
               ClassType{name: BinaryName{packages: vec!["java".to_owned(), "lang".to_owned()], class: "Thread".to_owned()}});
    assert_eq!(ClassType::new("Ljava/lang/Threaд;").unwrap(),
               ClassType{name: BinaryName{packages: vec!["java".to_owned(), "lang".to_owned()], class: "Threaд".to_owned()}});
    assert_eq!(ClassType::new("LThread;").unwrap(),
               ClassType{name: BinaryName{packages: vec![], class: "Thread".to_owned()}});
}

#[test]
fn test_demangle_class_type_invalid() {
    assert!(ClassType::new("java/lang/Thread").is_err());
    assert!(ClassType::new("java/lang/Thread;").is_err());
    assert!(ClassType::new("Ljava/lang/Thread").is_err());
    assert!(ClassType::new("Ljava/lang/Thread/;").is_err());
    assert!(ClassType::new("L/java/lang/Thread;").is_err());
    assert!(ClassType::new("").is_err());
    assert!(ClassType::new("L;").is_err());
    assert!(ClassType::new("L/;").is_err());
    assert!(ClassType::new("L//;").is_err());
    assert!(ClassType::new("Ljava//lang/Thread;").is_err());
}

#[test]
fn test_demangle_field_type_valid() {
    assert_eq!(FieldType::new("B").unwrap(), FieldType{ scalar_type: ScalarFieldType::Byte, dimensions: 0});
    assert_eq!(FieldType::new("C").unwrap(), FieldType{ scalar_type: ScalarFieldType::Char, dimensions: 0});
    assert_eq!(FieldType::new("D").unwrap(), FieldType{ scalar_type: ScalarFieldType::Double, dimensions: 0});
    assert_eq!(FieldType::new("F").unwrap(), FieldType{ scalar_type: ScalarFieldType::Float, dimensions: 0});
    assert_eq!(FieldType::new("I").unwrap(), FieldType{ scalar_type: ScalarFieldType::Integer, dimensions: 0});
    assert_eq!(FieldType::new("J").unwrap(), FieldType{ scalar_type: ScalarFieldType::Long, dimensions: 0});
    assert_eq!(FieldType::new("S").unwrap(), FieldType{ scalar_type: ScalarFieldType::Short, dimensions: 0});
    assert_eq!(FieldType::new("Z").unwrap(), FieldType{ scalar_type: ScalarFieldType::Boolean, dimensions: 0});
    assert_eq!(FieldType::new("[B").unwrap(),
               FieldType{ scalar_type: ScalarFieldType::Byte, dimensions: 1});
    assert_eq!(FieldType::new("[C").unwrap(),
               FieldType{ scalar_type: ScalarFieldType::Char, dimensions: 1});
    assert_eq!(FieldType::new("[D").unwrap(),
               FieldType{ scalar_type: ScalarFieldType::Double, dimensions: 1});
    assert_eq!(FieldType::new("[F").unwrap(),
               FieldType{ scalar_type: ScalarFieldType::Float, dimensions: 1});
    assert_eq!(FieldType::new("[I").unwrap(),
               FieldType{ scalar_type: ScalarFieldType::Integer, dimensions: 1});
    assert_eq!(FieldType::new("[J").unwrap(),
               FieldType{ scalar_type: ScalarFieldType::Long, dimensions: 1});
    assert_eq!(FieldType::new("[S").unwrap(),
               FieldType{ scalar_type: ScalarFieldType::Short, dimensions: 1});
    assert_eq!(FieldType::new("[Z").unwrap(),
               FieldType{ scalar_type: ScalarFieldType::Boolean, dimensions: 1});
    assert_eq!(FieldType::new("Ljava/lang/Thread;").unwrap(),
               FieldType{ scalar_type: ScalarFieldType::Class {name: BinaryName{packages:
               vec!["java".to_owned(), "lang".to_owned()], class: "Thread".to_owned()}}, dimensions: 0});
    assert_eq!(FieldType::new("[Ljava/lang/Thread;").unwrap(),
               FieldType{ scalar_type: ScalarFieldType::Class {name: BinaryName{packages:
               vec!["java".to_owned(), "lang".to_owned()], class: "Thread".to_owned()}}, dimensions: 1});
    assert_eq!(FieldType::new("[[B").unwrap(),
               FieldType{ scalar_type: ScalarFieldType::Byte, dimensions: 2});
    assert_eq!(FieldType::new("[[C").unwrap(),
               FieldType{ scalar_type: ScalarFieldType::Char, dimensions: 2});
    assert_eq!(FieldType::new("[[D").unwrap(),
               FieldType{ scalar_type: ScalarFieldType::Double, dimensions: 2});
    assert_eq!(FieldType::new("[[F").unwrap(),
               FieldType{ scalar_type: ScalarFieldType::Float, dimensions: 2});
    assert_eq!(FieldType::new("[[I").unwrap(),
               FieldType{ scalar_type: ScalarFieldType::Integer, dimensions: 2});
    assert_eq!(FieldType::new("[[J").unwrap(),
               FieldType{ scalar_type: ScalarFieldType::Long, dimensions: 2});
    assert_eq!(FieldType::new("[[S").unwrap(),
               FieldType{ scalar_type: ScalarFieldType::Short, dimensions: 2});
    assert_eq!(FieldType::new("[[Z").unwrap(),
               FieldType{ scalar_type: ScalarFieldType::Boolean, dimensions: 2});
    assert_eq!(FieldType::new("[[Ljava/lang/Thread;").unwrap(),
               FieldType{ scalar_type: ScalarFieldType::Class {name: BinaryName{packages:
               vec!["java".to_owned(), "lang".to_owned()], class: "Thread".to_owned()}}, dimensions: 2});
    assert_eq!(FieldType::new("[[Ljava/lang/Threaд;").unwrap(),
               FieldType{ scalar_type: ScalarFieldType::Class {name: BinaryName{packages:
               vec!["java".to_owned(), "lang".to_owned()], class: "Threaд".to_owned()}}, dimensions: 2});
}

#[test]
fn test_demangle_field_type_invalid() {
    assert!(FieldType::new("").is_err());
    assert!(FieldType::new("[").is_err());
    assert!(FieldType::new("[[").is_err());
    assert!(FieldType::new("M").is_err());
    assert!(FieldType::new("[M").is_err());
    assert!(FieldType::new("[BB").is_err());
    assert!(FieldType::new("BB").is_err());
    assert!(FieldType::new("[B[B").is_err());
    assert!(FieldType::new("[B[").is_err());
    assert!(FieldType::new("[[M").is_err());
    assert!(FieldType::new("Lx").is_err());
    assert!(FieldType::new("L;").is_err());
    assert!(FieldType::new("L/;").is_err());
}

#[test]
fn test_demangle_method_type_valid() {
    assert_eq!(MethodType::new("(BCIDFJSZLjava/lang/Thread;)Ljava/lang/Object;").unwrap(),
               MethodType{ parameter_types: vec![FieldType{ scalar_type: ScalarFieldType::Byte, dimensions: 0},
                                                 FieldType{ scalar_type: ScalarFieldType::Char, dimensions: 0},
                                                 FieldType{ scalar_type: ScalarFieldType::Integer, dimensions: 0},
                                                 FieldType{ scalar_type: ScalarFieldType::Double, dimensions: 0},
                                                 FieldType{ scalar_type: ScalarFieldType::Float, dimensions: 0},
                                                 FieldType{ scalar_type: ScalarFieldType::Long, dimensions: 0},
                                                 FieldType{ scalar_type: ScalarFieldType::Short, dimensions: 0},
                                                 FieldType{ scalar_type: ScalarFieldType::Boolean, dimensions: 0},
                                                 FieldType{ scalar_type: ScalarFieldType::Class {name: BinaryName{ packages:
                                                 vec!["java".to_owned(), "lang".to_owned()], class: "Thread".to_owned()}}, dimensions: 0}],
            return_type: Some(FieldType{ scalar_type: ScalarFieldType::Class {name: BinaryName{ packages:
            vec!["java".to_owned(), "lang".to_owned()], class: "Object".to_owned()}}, dimensions: 0})});
    assert_eq!(MethodType::new("(IDLjava/lang/Thread;)Ljava/lang/Object;").unwrap(),
               MethodType{ parameter_types: vec![FieldType{ scalar_type: ScalarFieldType::Integer, dimensions: 0},
                                                        FieldType{ scalar_type: ScalarFieldType::Double, dimensions: 0},
                                                        FieldType{ scalar_type: ScalarFieldType::Class {name: BinaryName{ packages:
                                                        vec!["java".to_owned(), "lang".to_owned()], class: "Thread".to_owned()}}, dimensions: 0}],
                   return_type: Some(FieldType{ scalar_type: ScalarFieldType::Class {name: BinaryName{ packages:
                   vec!["java".to_owned(), "lang".to_owned()], class: "Object".to_owned()}}, dimensions: 0})});
    assert_eq!(MethodType::new("(IDLjava/lang/Threaд;)Ljava/lang/Oбject;").unwrap(),
               MethodType{ parameter_types: vec![FieldType{ scalar_type: ScalarFieldType::Integer, dimensions: 0},
                                                        FieldType{ scalar_type: ScalarFieldType::Double, dimensions: 0},
                                                        FieldType{ scalar_type: ScalarFieldType::Class {name: BinaryName{ packages:
                                                        vec!["java".to_owned(), "lang".to_owned()], class: "Threaд".to_owned()}}, dimensions: 0}],
                   return_type: Some(FieldType{ scalar_type: ScalarFieldType::Class {name: BinaryName{ packages:
                   vec!["java".to_owned(), "lang".to_owned()], class: "Oбject".to_owned()}}, dimensions: 0})});
    assert_eq!(MethodType::new("([[IDLjava/lang/Thread;)Ljava/lang/Object;").unwrap(),
               MethodType{ parameter_types: vec![FieldType{ scalar_type: ScalarFieldType::Integer, dimensions: 2},
                                                        FieldType{ scalar_type: ScalarFieldType::Double, dimensions: 0},
                                                        FieldType{ scalar_type: ScalarFieldType::Class {name: BinaryName{ packages:
                                                        vec!["java".to_owned(), "lang".to_owned()], class: "Thread".to_owned()}}, dimensions: 0}],
                   return_type: Some(FieldType{ scalar_type: ScalarFieldType::Class {name: BinaryName{ packages:
                   vec!["java".to_owned(), "lang".to_owned()], class: "Object".to_owned()}}, dimensions: 0})});
    assert_eq!(MethodType::new("(IDLjava/lang/Thread;BZ)Ljava/lang/Object;").unwrap(),
               MethodType{ parameter_types: vec![FieldType{ scalar_type: ScalarFieldType::Integer, dimensions: 0},
                                                        FieldType{ scalar_type: ScalarFieldType::Double, dimensions: 0},
                                                        FieldType{ scalar_type: ScalarFieldType::Class {name: BinaryName{ packages:
                                                        vec!["java".to_owned(), "lang".to_owned()], class: "Thread".to_owned()}}, dimensions: 0},
                                                        FieldType{ scalar_type: ScalarFieldType::Byte, dimensions: 0},
                                                        FieldType{ scalar_type: ScalarFieldType::Boolean, dimensions: 0}],
                   return_type: Some(FieldType{ scalar_type: ScalarFieldType::Class {name: BinaryName{ packages:
                   vec!["java".to_owned(), "lang".to_owned()], class: "Object".to_owned()}}, dimensions: 0})});
    assert_eq!(MethodType::new("(IDLjava/lang/Thread;[B)Ljava/lang/Object;").unwrap(),
               MethodType{ parameter_types: vec![FieldType{ scalar_type: ScalarFieldType::Integer, dimensions: 0},
                                                        FieldType{ scalar_type: ScalarFieldType::Double, dimensions: 0},
                                                        FieldType{ scalar_type: ScalarFieldType::Class {name: BinaryName{ packages:
                                                        vec!["java".to_owned(), "lang".to_owned()], class: "Thread".to_owned()}}, dimensions: 0},
                                                        FieldType{ scalar_type: ScalarFieldType::Byte, dimensions: 1}],
                   return_type: Some(FieldType{ scalar_type: ScalarFieldType::Class {name: BinaryName{ packages:
                   vec!["java".to_owned(), "lang".to_owned()], class: "Object".to_owned()}}, dimensions: 0})});
    assert_eq!(MethodType::new("(ID[[Ljava/lang/Thread;)Ljava/lang/Object;").unwrap(),
               MethodType{ parameter_types: vec![FieldType{ scalar_type: ScalarFieldType::Integer, dimensions: 0},
                                                        FieldType{ scalar_type: ScalarFieldType::Double, dimensions: 0},
                                                        FieldType{ scalar_type: ScalarFieldType::Class {name: BinaryName{ packages:
                                                        vec!["java".to_owned(), "lang".to_owned()], class: "Thread".to_owned()}}, dimensions: 2}],
                   return_type: Some(FieldType{ scalar_type: ScalarFieldType::Class {name: BinaryName{ packages:
                   vec!["java".to_owned(), "lang".to_owned()], class: "Object".to_owned()}}, dimensions: 0})});
    assert_eq!(MethodType::new("(IDLjava/lang/Thread;)[Ljava/lang/Object;").unwrap(),
               MethodType{ parameter_types: vec![FieldType{ scalar_type: ScalarFieldType::Integer, dimensions: 0},
                                                        FieldType{ scalar_type: ScalarFieldType::Double, dimensions: 0},
                                                        FieldType{ scalar_type: ScalarFieldType::Class {name: BinaryName{ packages:
                                                        vec!["java".to_owned(), "lang".to_owned()], class: "Thread".to_owned()}}, dimensions: 0}],
                   return_type: Some(FieldType{ scalar_type: ScalarFieldType::Class {name: BinaryName{ packages:
                   vec!["java".to_owned(), "lang".to_owned()], class: "Object".to_owned()}}, dimensions: 1})});
    assert_eq!(MethodType::new("(IDLjava/lang/Thread;)B").unwrap(),
               MethodType{ parameter_types: vec![FieldType{ scalar_type: ScalarFieldType::Integer, dimensions: 0},
                                                        FieldType{ scalar_type: ScalarFieldType::Double, dimensions: 0},
                                                        FieldType{ scalar_type: ScalarFieldType::Class {name: BinaryName{ packages:
                                                        vec!["java".to_owned(), "lang".to_owned()], class: "Thread".to_owned()}}, dimensions: 0}],
                   return_type: Some(FieldType{ scalar_type: ScalarFieldType::Byte, dimensions: 0})});
    assert_eq!(MethodType::new("(IDLjava/lang/Thread;)[B").unwrap(),
               MethodType{ parameter_types: vec![FieldType{ scalar_type: ScalarFieldType::Integer, dimensions: 0},
                                                        FieldType{ scalar_type: ScalarFieldType::Double, dimensions: 0},
                                                        FieldType{ scalar_type: ScalarFieldType::Class {name: BinaryName{ packages:
                                                        vec!["java".to_owned(), "lang".to_owned()], class: "Thread".to_owned()}}, dimensions: 0}],
                   return_type: Some(FieldType{ scalar_type: ScalarFieldType::Byte, dimensions: 1})});
    assert_eq!(MethodType::new("(IDLjava/lang/Thread;)V").unwrap(),
               MethodType{ parameter_types: vec![FieldType{ scalar_type: ScalarFieldType::Integer, dimensions: 0},
                                                        FieldType{ scalar_type: ScalarFieldType::Double, dimensions: 0},
                                                        FieldType{ scalar_type: ScalarFieldType::Class {name: BinaryName{ packages:
                                                        vec!["java".to_owned(), "lang".to_owned()], class: "Thread".to_owned()}}, dimensions: 0}],
                   return_type: None});
    assert_eq!(MethodType::new("(ID)V").unwrap(),
               MethodType{ parameter_types: vec![FieldType{ scalar_type: ScalarFieldType::Integer, dimensions: 0},
                                                        FieldType{ scalar_type: ScalarFieldType::Double, dimensions: 0}],
                   return_type: None});
    assert_eq!(MethodType::new("()V").unwrap(), MethodType{ parameter_types: vec![], return_type: None});
}

#[test]
fn test_demangle_method_type_invalid() {
    assert!(MethodType::new("(IDLjava/lang/Thread;)Ljava/lang/Object").is_err());
    assert!(MethodType::new("(IDLjava/lang/Thread)Ljava/lang/Object;").is_err());
    assert!(MethodType::new("(IDLjava/lang/Thread;)").is_err());
    assert!(MethodType::new("(V)Ljava/lang/Object;").is_err());
    assert!(MethodType::new("(IDLjava/lang/Thread;)VV").is_err());
    assert!(MethodType::new("(IDLjava/lang/Thread;)[V").is_err());
    assert!(MethodType::new("IDLjava/lang/Thread;)Ljava/lang/Object").is_err());
    assert!(MethodType::new("(").is_err());
    assert!(MethodType::new("()").is_err());
    assert!(MethodType::new(")").is_err());
    assert!(MethodType::new("").is_err());
    assert!(MethodType::new("(IDLjava/lang/Thread;").is_err());
    assert!(MethodType::new("(IDLjava/lang/Thread;I").is_err());
    assert!(MethodType::new("(IDLjava/lang/Thread;VI").is_err());
    assert!(MethodType::new("(IDLjava/lang/Thread;)Ljava/lang/Object;B").is_err());
}

#[test]
fn test_display_as_method_definition() {
    assert_eq!(MethodType::new("(IDLjava/lang/Thread;)Ljava/lang/Object;").unwrap()
                   .display_as_method_definition("test", &BinaryName::new("java/lang/Thread").unwrap()),
        "java.lang.Object java.lang.Thread.test(int p0, double p1, java.lang.Thread p2)");
    assert_eq!(MethodType::new("(IDLjava/lang/Thread;)V").unwrap()
                   .display_as_method_definition("test", &BinaryName::new("java/lang/Thread").unwrap()),
               "void java.lang.Thread.test(int p0, double p1, java.lang.Thread p2)");
    assert_eq!(MethodType::new("([[I[DLjava/lang/Thread;)[Ljava/lang/Object;").unwrap()
                   .display_as_method_definition("test", &BinaryName::new("java/lang/Thread").unwrap()),
               "java.lang.Object[] java.lang.Thread.test(int[][] p0, double[] p1, java.lang.Thread p2)");
    assert_eq!(MethodType::new("(IDLjava/lang/Thread;)Ljava/lang/Object;").unwrap()
                   .display_as_method_definition("test", &ClassType::new("Ljava/lang/Thread;").unwrap()),
               "java.lang.Object java.lang.Thread.test(int p0, double p1, java.lang.Thread p2)");
    assert_eq!(MethodType::new("(IDLjava/lang/Thread;)V").unwrap()
                   .display_as_method_definition("test", &ClassType::new("Ljava/lang/Thread;").unwrap()),
               "void java.lang.Thread.test(int p0, double p1, java.lang.Thread p2)");
    assert_eq!(MethodType::new("([[I[DLjava/lang/Thread;)[Ljava/lang/Object;").unwrap()
                   .display_as_method_definition("test", &ClassType::new("Ljava/lang/Thread;").unwrap()),
               "java.lang.Object[] java.lang.Thread.test(int[][] p0, double[] p1, java.lang.Thread p2)");
}

#[test]
fn binary_name_reads_back_from_its_mangled_form() {
    let name = BinaryName {
        packages: vec!["java".to_owned(), "util".to_owned(), "concurrent".to_owned()],
        class: "Future".to_owned(),
    };
    let mangled = name.package_as_file_path(&name.class);
    assert_eq!(mangled, "java/util/concurrent/Future");
    assert_eq!(BinaryName::new(&mangled).unwrap(), name);
    let bare = BinaryName { packages: vec![], class: "Main".to_owned() };
    assert_eq!(BinaryName::new(&bare.package_as_file_path(&bare.class)).unwrap(), bare);
}

#[test]
fn binary_name_source_form_joins_with_dots() {
    assert_eq!(BinaryName::new("java/lang/Thread").unwrap().to_string(), "java.lang.Thread");
    assert_eq!(BinaryName::new("Thread").unwrap().to_string(), "Thread");
    assert_eq!(BinaryName::new("").unwrap().to_string(), "");
    assert_eq!(ClassType::new("Ljava/lang/Thread;").unwrap().to_string(), "java.lang.Thread");
}

#[test]
fn package_as_file_path_joins_with_slashes() {
    let name = BinaryName::new("java/lang/Thread").unwrap();
    assert_eq!(name.package_as_file_path("Thread.java"), "java/lang/Thread.java");
    let bare = BinaryName::new("Thread").unwrap();
    assert_eq!(bare.package_as_file_path("Thread.java"), "Thread.java");
    let class = ClassType::new("Lorg/example/Main;").unwrap();
    assert_eq!(class.package_as_file_path("Main.kt"), "org/example/Main.kt");
}

#[test]
fn field_type_source_form_has_one_bracket_pair_per_dimension() {
    assert_eq!(FieldType::new("[[Ljava/lang/Thread;").unwrap().to_string(), "java.lang.Thread[][]");
    assert_eq!(FieldType::new("Ljava/lang/Thread;").unwrap().to_string(), "java.lang.Thread");
    assert_eq!(FieldType::new("[LThread;").unwrap().to_string(), "Thread[]");
    assert_eq!(FieldType::new("B").unwrap().to_string(), "byte");
    assert_eq!(FieldType::new("[C").unwrap().to_string(), "char[]");
    assert_eq!(FieldType::new("D").unwrap().to_string(), "double");
    assert_eq!(FieldType::new("F").unwrap().to_string(), "float");
    assert_eq!(FieldType::new("[[[I").unwrap().to_string(), "int[][][]");
    assert_eq!(FieldType::new("J").unwrap().to_string(), "long");
    assert_eq!(FieldType::new("S").unwrap().to_string(), "short");
    assert_eq!(FieldType::new("Z").unwrap().to_string(), "boolean");
}

#[test]
fn method_type_source_form_lists_the_parameter_types() {
    assert_eq!(MethodType::new("()V").unwrap().to_string(), "void ()");
    assert_eq!(
        MethodType::new("(I[DLjava/lang/Thread;)Ljava/lang/Object;").unwrap().to_string(),
        "java.lang.Object (int, double[], java.lang.Thread)"
    );
}

#[test]
fn method_definition_numbers_parameters_past_nine() {
    let method = MethodType::new("(IIIIIIIIIIII)V").unwrap();
    let class = BinaryName::new("A").unwrap();
    assert_eq!(
        method.display_as_method_definition("m", &class),
        "void A.m(int p0, int p1, int p2, int p3, int p4, int p5, int p6, int p7, int p8, int p9, int p10, int p11)"
    );
    assert_eq!(MethodType::new("()V").unwrap().display_as_method_definition("run", &class), "void A.run()");
}

#[test]
fn empty_method_descriptor_has_no_parameters_and_no_return_type() {
    let method = MethodType::new("()V").unwrap();
    assert!(method.parameter_types.is_empty());
    assert!(method.return_type.is_none());
}

#[test]
fn void_is_no_parameter_type() {
    assert!(MethodType::new("(V)Ljava/lang/Object;").is_err());
    assert!(MethodType::new("([V)V").is_err());
    assert!(MethodType::new("([)V").is_err());
    assert!(MethodType::new("(L;)V").is_err());
    assert!(MethodType::new("(La//b;)V").is_err());
}

#[test]
fn field_descriptors_without_a_scalar_are_refused() {
    assert!(FieldType::new("[").is_err());
    assert!(FieldType::new("[[").is_err());
    assert!(FieldType::new("M").is_err());
    assert!(FieldType::new("V").is_err());
    assert!(FieldType::new("La;b;").is_err());
    assert!(FieldType::new("L;").is_err());
    assert!(ClassType::new("L;").is_err());
}

#[test]
fn unequal_descriptors_compare_unequal() {
    assert_ne!(BinaryName::new("a/b").unwrap(), BinaryName::new("a/c").unwrap());
    assert_ne!(BinaryName::new("a/b").unwrap(), BinaryName::new("b").unwrap());
    assert_ne!(FieldType::new("[I").unwrap(), FieldType::new("I").unwrap());
    assert_ne!(FieldType::new("I").unwrap(), FieldType::new("J").unwrap());
    assert_ne!(MethodType::new("(I)V").unwrap(), MethodType::new("(I)I").unwrap());
    assert_ne!(MethodType::new("(I)V").unwrap(), MethodType::new("(II)V").unwrap());
    assert_eq!(
        FieldType::new("LA;").unwrap().scalar_type,
        ScalarFieldType::Class { name: BinaryName::new("A").unwrap() }
    );
}
