use mec::decl::FuncDef;
use mec::gen::GenError;

fn def(name: &str, args: &[&str], ret: &str) -> FuncDef {
    FuncDef {
        name: name.to_string(),
        argstype: args.iter().map(|a| a.to_string()).collect(),
        rettype: ret.to_string(),
    }
}

fn unsupported(e: GenError) -> (String, String) {
    match e {
        GenError::UnsupportedType { decl_name, ty_name } => (decl_name, ty_name),
    }
}

#[test]
fn args_decl_two_integers_named_by_position() {
    let d = def("add", &["Integer", "Integer"], "Integer");
    assert_eq!(d.args_decl().unwrap(), "a0: i32, a1: i32");
}

#[test]
fn args_decl_buffer_type_becomes_pointer_length_pair() {
    let d = def("greet", &["String"], "String");
    assert_eq!(d.args_decl().unwrap(), "p0: *const u8, l0: usize");
}

#[test]
fn args_decl_mixed_types_keep_declared_order() {
    let d = def("mix", &["Integer", "String", "Float"], "void");
    assert_eq!(d.args_decl().unwrap(), "a0: i32, p1: *const u8, l1: usize, a2: f32");
}

#[test]
fn args_decl_empty_list_is_empty_text() {
    assert_eq!(def("noop", &[], "void").args_decl().unwrap(), "");
}

#[test]
fn args_decl_multi_digit_positions() {
    let types: Vec<&str> = std::iter::repeat("Integer").take(11).collect();
    let d = def("many", &types, "void");
    let expected = (0..11).map(|i| format!("a{}: i32", i)).collect::<Vec<_>>().join(", ");
    assert_eq!(d.args_decl().unwrap(), expected);
}

#[test]
fn args_let_vec_wraps_each_parameter() {
    let d = def("mix", &["Integer", "Float", "String"], "void");
    assert_eq!(
        d.args_let_vec().unwrap(),
        "vec![std::rc::Rc::new(RObject::RInteger(a0 as i64)), \
         std::rc::Rc::new(RObject::RFloat(a1 as f64)), \
         std::rc::Rc::new(RObject::RString(a2.to_owned()))]"
    );
}

#[test]
fn args_let_vec_empty_list_is_explicit_empty_vec() {
    assert_eq!(def("noop", &[], "void").args_let_vec().unwrap(), "vec![]");
}

#[test]
fn str_args_converter_emits_preamble_for_buffer_parameter() {
    let d = def("greet", &["String"], "String");
    let expected = "\nlet a0 = unsafe {\n    let s = std::slice::from_raw_parts(p0, l0 as usize);\n    std::str::from_utf8(s).expect(\"invalid utf8\")\n};\n";
    assert_eq!(d.str_args_converter().unwrap(), expected);
}

#[test]
fn str_args_converter_skips_scalar_parameters() {
    let d = def("mix", &["Integer", "Float"], "void");
    assert_eq!(d.str_args_converter().unwrap(), "");
    let d2 = def("mix2", &["Integer", "String", "Integer"], "void");
    let out = d2.str_args_converter().unwrap();
    assert!(out.contains("from_raw_parts(p1, l1 as usize)"));
    assert!(!out.contains("a0"));
    assert!(!out.contains("a2"));
}

#[test]
fn rettype_decl_maps_each_supported_type() {
    assert_eq!(def("f", &[], "void").rettype_decl().unwrap(), "-> ()");
    assert_eq!(def("f", &[], "Integer").rettype_decl().unwrap(), "-> i32");
    assert_eq!(def("f", &[], "Float").rettype_decl().unwrap(), "-> f32");
    assert_eq!(def("f", &[], "String").rettype_decl().unwrap(), "-> *const u8");
}

#[test]
fn handle_retval_buffer_return_appends_sentinel_and_leaks_the_buffer() {
    let d = def("greet", &["String"], "String");
    let expected = "let mut retval: String = retval.as_ref().try_into().unwrap();\nretval.push('\0');\nretval.leak().as_ptr()\n";
    assert_eq!(d.handle_retval().unwrap(), expected);
}

#[test]
fn handle_retval_scalars_convert_directly() {
    for ret in ["Integer", "Float"] {
        assert_eq!(
            def("f", &[], ret).handle_retval().unwrap(),
            "retval.as_ref().try_into().unwrap()"
        );
    }
}

#[test]
fn handle_retval_void_produces_no_value() {
    assert_eq!(def("f", &[], "void").handle_retval().unwrap(), "()");
}

#[test]
fn imoprted_body_scalar_arguments_and_integer_return() {
    let d = def("add", &["Integer", "Integer"], "Integer");
    let expected = "let a0 = args[0].clone().as_ref().try_into().unwrap();\n\
                    let a1 = args[1].clone().as_ref().try_into().unwrap();\n\
                    let r0 = unsafe { add(a0,a1) };\n\
                    Rc::new(RObject::RInteger(r0 as i64))\n";
    assert_eq!(d.imoprted_body().unwrap(), expected);
}

#[test]
fn imoprted_body_buffer_argument_synthesizes_pointer_and_length() {
    let d = def("log", &["String"], "void");
    let expected = "let a0: String = args[0].clone().as_ref().try_into().unwrap();\n\
                    let p0 = a0.as_str().as_ptr();\n\
                    let l0 = a0.as_str().len();\n\
                    let r0 = unsafe { log(p0, l0) };\n\
                    Rc::new(RObject::Nil)\n";
    assert_eq!(d.imoprted_body().unwrap(), expected);
}

#[test]
fn imoprted_body_empty_parameter_list_calls_with_no_arguments() {
    let d = def("noop", &[], "void");
    assert_eq!(
        d.imoprted_body().unwrap(),
        "let r0 = unsafe { noop() };\nRc::new(RObject::Nil)\n"
    );
}

#[test]
fn unsupported_parameter_type_rejected_everywhere() {
    let d = def("odd", &["Integer", "Boolean"], "void");
    for e in [
        d.args_decl().unwrap_err(),
        d.args_let_vec().unwrap_err(),
        d.str_args_converter().unwrap_err(),
        d.imoprted_body().unwrap_err(),
    ] {
        let (decl_name, ty_name) = unsupported(e);
        assert_eq!(decl_name, "odd");
        assert_eq!(ty_name, "Boolean");
    }
}

#[test]
fn unsupported_return_type_rejected_everywhere() {
    let d = def("odd", &[], "Boolean");
    for e in [
        d.rettype_decl().unwrap_err(),
        d.handle_retval().unwrap_err(),
        d.imoprted_body().unwrap_err(),
    ] {
        let (decl_name, ty_name) = unsupported(e);
        assert_eq!(decl_name, "odd");
        assert_eq!(ty_name, "Boolean");
    }
}

#[test]
fn error_names_the_first_unsupported_parameter() {
    let d = def("odd", &["Integer", "Alpha", "Beta"], "void");
    for e in [d.args_decl().unwrap_err(), d.imoprted_body().unwrap_err()] {
        let (_, ty_name) = unsupported(e);
        assert_eq!(ty_name, "Alpha");
    }
}

#[test]
fn void_is_not_a_parameter_type() {
    let d = def("odd", &["void"], "void");
    let (_, ty_name) = unsupported(d.args_decl().unwrap_err());
    assert_eq!(ty_name, "void");
}

#[test]
fn imoprted_body_float_return_wraps_into_tagged_float() {
    let d = def("ratio", &[], "Float");
    assert_eq!(
        d.imoprted_body().unwrap(),
        "let r0 = unsafe { ratio() };\nRc::new(RObject::RFloat(r0 as f64))\n"
    );
}

#[test]
fn imoprted_body_buffer_return_decodes_the_sentinel_terminated_buffer() {
    let d = def("motto", &[], "String");
    let expected = "let r0 = unsafe { motto() };\n\
                    Rc::new(RObject::RString(unsafe {\n\
                    \x20   let mut rlen = 0usize;\n\
                    \x20   while *r0.add(rlen) != 0u8 {\n\
                    \x20       rlen += 1;\n\
                    \x20   }\n\
                    \x20   let bytes = std::slice::from_raw_parts(r0, rlen);\n\
                    \x20   std::str::from_utf8(bytes).expect(\"invalid utf8\").to_owned()\n\
                    }))\n";
    assert_eq!(d.imoprted_body().unwrap(), expected);
}

#[test]
fn import_direction_return_adapts_every_supported_type() {
    for ret in ["Integer", "Float", "String", "void"] {
        assert!(def("f", &[], ret).imoprted_body().is_ok());
    }
    let (decl_name, ty_name) = unsupported(def("f", &[], "Boolean").imoprted_body().unwrap_err());
    assert_eq!(decl_name, "f");
    assert_eq!(ty_name, "Boolean");
}
