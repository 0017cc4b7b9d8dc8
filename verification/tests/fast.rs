use mlx_rs::dtype::Dtype;
use mlx_rs::fast::{
    attention_mask_mode, check_created, check_status, ConfigStep, DispatchAction, MetalKernel, OutputArg,
    ScaledDotProductAttentionMask, TemplateArg, SUCCESS,
};

#[test]
fn test_metal_kernel_elementwise_scale() {
    let a = vec![1.0f32, 2.0, 3.0, 4.0, 5.0, 6.0];

    let kernel = MetalKernel::new(
        "scale_by_two",
        &["a"],
        &["out"],
        r#"
                uint elem = thread_position_in_grid.x;
                out[elem] = a[elem] * 2.0f;
            "#,
    )
    .unwrap();

    let dispatch = kernel
        .apply::<&Vec<f32>, f32>()
        .input(&a)
        .output(OutputArg { shape: vec![6], dtype: Dtype::Float32 })
        .grid(6, 1, 1)
        .thread_group(6, 1, 1);

    assert_eq!(dispatch.output_list().len(), 1);
    let out = &dispatch.output_list()[0];
    assert_eq!(out.shape, vec![6]);
    assert_eq!(out.dtype, Dtype::Float32);
    assert_eq!(
        dispatch.config_steps(),
        vec![ConfigStep::AddOutput(0), ConfigStep::SetGrid, ConfigStep::SetThreadGroup, ConfigStep::SetVerbose]
    );
}

#[test]
fn test_metal_kernel_two_inputs_with_template() {
    let a = vec![1.0f32, 2.0, 3.0, 4.0];
    let b = vec![10.0f32, 20.0, 30.0, 40.0];

    let kernel = MetalKernel::new(
        "add_two",
        &["a", "b"],
        &["out"],
        r#"
                uint elem = thread_position_in_grid.x;
                out[elem] = a[elem] + b[elem];
            "#,
    )
    .unwrap();

    let dispatch = kernel
        .apply::<&Vec<f32>, f32>()
        .input(&a)
        .input(&b)
        .output_shape(vec![4], Dtype::Float32)
        .grid(4, 1, 1)
        .thread_group(4, 1, 1)
        .template_arg("T".to_string(), TemplateArg::from(Dtype::Float32));

    assert_eq!(dispatch.output_list().len(), 1);
    assert_eq!(dispatch.output_list()[0].shape, vec![4]);
    assert_eq!(dispatch.input_list().len(), 2);
    assert_eq!(dispatch.template_arg_list()[0].0, "T");
    assert_eq!(dispatch.template_arg_list()[0].1, TemplateArg::Dtype(Dtype::Float32));
    assert_eq!(dispatch.grid_dims(), (4, 1, 1));
    assert_eq!(dispatch.thread_group_dims(), (4, 1, 1));
    assert_eq!(
        dispatch.config_steps(),
        vec![
            ConfigStep::AddOutput(0),
            ConfigStep::SetGrid,
            ConfigStep::SetThreadGroup,
            ConfigStep::SetVerbose,
            ConfigStep::AddTemplateArg(0)
        ]
    );
}

#[test]
fn kernel_defaults_match_the_full_constructor() {
    let k = MetalKernel::new("k", &["x"], &["y", "z"], "body").unwrap();
    assert_eq!(k.name(), "k");
    assert_eq!(k.input_names(), &vec!["x".to_string()]);
    assert_eq!(k.output_names(), &vec!["y".to_string(), "z".to_string()]);
    assert_eq!(k.source(), "body");
    assert_eq!(k.header(), "");
    assert!(k.ensure_row_contiguous());
    assert!(!k.atomic_outputs());
    let o = MetalKernel::with_options("k", &["x"], &["y"], "body", "#include <m>", false, true).unwrap();
    assert_eq!(o.header(), "#include <m>");
    assert!(!o.ensure_row_contiguous());
    assert!(o.atomic_outputs());
}

#[test]
fn kernel_strings_with_nul_bytes_are_refused_in_order() {
    let e = MetalKernel::new("ab\0c", &["x"], &["y"], "body").unwrap_err();
    assert_eq!(e.what(), "nul byte found in provided data at position: 2");
    let e = MetalKernel::new("k", &["x"], &["y"], "0123456789\0").unwrap_err();
    assert_eq!(e.what(), "nul byte found in provided data at position: 10");
    let e = MetalKernel::with_options("k", &["x"], &["y"], "b", "h\0", true, false).unwrap_err();
    assert_eq!(e.what(), "nul byte found in provided data at position: 1");
    let e = MetalKernel::new("k", &["ok", "\0bad"], &["y\0"], "body").unwrap_err();
    assert_eq!(e.what(), "nul byte found in provided data at position: 0");
    let e = MetalKernel::new("k", &["ok"], &["y", "zz\0"], "body").unwrap_err();
    assert_eq!(e.what(), "nul byte found in provided data at position: 2");
    // The source is checked before the input names.
    let e = MetalKernel::new("k", &["\0"], &["y"], "bo\0dy").unwrap_err();
    assert_eq!(e.what(), "nul byte found in provided data at position: 2");
    // Positions count bytes, not characters.
    let e = MetalKernel::new("é\0", &[], &[], "b").unwrap_err();
    assert_eq!(e.what(), "nul byte found in provided data at position: 2");
}

#[test]
fn dispatch_defaults_and_full_config_plan() {
    let k = MetalKernel::new("k", &["x"], &["y", "z"], "body").unwrap();
    let d = k.apply::<u8, f32>();
    assert_eq!(d.grid_dims(), (1, 1, 1));
    assert_eq!(d.thread_group_dims(), (1, 1, 1));
    assert!(d.init_value_ref().is_none());
    assert!(!d.is_verbose());
    assert!(d.input_list().is_empty());
    let d = d
        .inputs(vec![1, 2, 3])
        .output_shape(vec![2], Dtype::Int32)
        .output(OutputArg { shape: vec![3, 3], dtype: Dtype::Bool })
        .init_value(0.5)
        .verbose(true)
        .template_arg("N".to_string(), TemplateArg::from(4))
        .template_arg("B".to_string(), TemplateArg::from(true));
    assert_eq!(d.input_list(), &vec![1, 2, 3]);
    assert_eq!(*d.init_value_ref(), Some(0.5));
    assert!(d.is_verbose());
    assert_eq!(d.kernel().name(), "k");
    assert_eq!(
        d.config_steps(),
        vec![
            ConfigStep::AddOutput(0),
            ConfigStep::AddOutput(1),
            ConfigStep::SetGrid,
            ConfigStep::SetThreadGroup,
            ConfigStep::SetInitValue,
            ConfigStep::SetVerbose,
            ConfigStep::AddTemplateArg(0),
            ConfigStep::AddTemplateArg(1)
        ]
    );
}

#[test]
fn template_args_convert_from_their_values() {
    assert_eq!(TemplateArg::from(Dtype::Float16), TemplateArg::Dtype(Dtype::Float16));
    assert_eq!(TemplateArg::from(-3), TemplateArg::Int(-3));
    assert_eq!(TemplateArg::from(false), TemplateArg::Bool(false));
}

#[test]
fn status_checks_use_the_backend_message_or_a_fallback() {
    assert!(check_status(SUCCESS, None).is_ok());
    assert!(check_status(0, Some("ignored".to_string())).is_ok());
    assert_eq!(check_status(1, None).unwrap_err().what(), "metal kernel config error");
    assert_eq!(check_status(-2, Some("bad grid".to_string())).unwrap_err().what(), "bad grid");
    assert!(check_created(false, None).is_ok());
    assert_eq!(check_created(true, None).unwrap_err().what(), "failed to create metal kernel");
    assert_eq!(check_created(true, Some("msl error".to_string())).unwrap_err().what(), "msl error");
}

#[test]
fn attention_masks_pick_their_mode() {
    let m = vec![0u8; 4];
    let explicit = ScaledDotProductAttentionMask::Array(&m);
    assert_eq!(explicit.mode(), "");
    assert_eq!(explicit.mask(), Some(&&m));
    let causal: ScaledDotProductAttentionMask<&Vec<u8>> = ScaledDotProductAttentionMask::Causal;
    assert_eq!(causal.mode(), "causal");
    assert!(causal.mask().is_none());
    assert_eq!(attention_mask_mode::<u8>(&None), "");
    assert_eq!(attention_mask_mode(&Some(ScaledDotProductAttentionMask::<u8>::Causal)), "causal");
    assert_eq!(attention_mask_mode(&Some(ScaledDotProductAttentionMask::Array(1u8))), "");
}

#[test]
fn masks_convert_from_arrays() {
    let m: ScaledDotProductAttentionMask<u32> = ScaledDotProductAttentionMask::from(7u32);
    assert_eq!(m.mask(), Some(&7u32));
    assert_eq!(m.mode(), "");
}

#[test]
fn dtype_codes_follow_declaration_order() {
    let all = [
        Dtype::Bool,
        Dtype::Uint8,
        Dtype::Uint16,
        Dtype::Uint32,
        Dtype::Uint64,
        Dtype::Int8,
        Dtype::Int16,
        Dtype::Int32,
        Dtype::Int64,
        Dtype::Float16,
        Dtype::Float32,
        Dtype::Float64,
        Dtype::Bfloat16,
        Dtype::Complex64,
    ];
    for (i, d) in all.iter().enumerate() {
        assert_eq!(d.code(), i as i32);
    }
}

#[test]
fn template_arg_names_are_checked_for_nul_bytes() {
    let k = MetalKernel::new("k", &["x"], &["y"], "body").unwrap();
    let d = k
        .apply::<u8, f32>()
        .template_arg("T".to_string(), TemplateArg::from(Dtype::Float32))
        .template_arg("N\0M".to_string(), TemplateArg::from(4))
        .template_arg("\0".to_string(), TemplateArg::from(true));
    assert!(d.check_template_arg_name(0).is_ok());
    assert_eq!(
        d.check_template_arg_name(1).unwrap_err().what(),
        "nul byte found in provided data at position: 1"
    );
    assert_eq!(
        d.check_template_arg_name(2).unwrap_err().what(),
        "nul byte found in provided data at position: 0"
    );
}

fn call_of(a: DispatchAction) -> ConfigStep {
    match a {
        DispatchAction::Call(step) => step,
        other => panic!("expected a call, got {:?}", other),
    }
}

#[test]
fn dispatch_walks_its_configuration_calls_then_runs() {
    let k = MetalKernel::new("k", &["x"], &["y"], "body").unwrap();
    let d = k
        .apply::<u8, f32>()
        .output_shape(vec![2], Dtype::Float32)
        .template_arg("T".to_string(), TemplateArg::from(Dtype::Float32));
    let plan = d.config_steps();
    let mut made = 0;
    let mut last = None;
    let mut calls = Vec::new();
    loop {
        match d.next_action(made, last.take()) {
            DispatchAction::Run => break,
            DispatchAction::Fail(e) => panic!("unexpected failure: {}", e.what()),
            DispatchAction::Call(step) => {
                calls.push(step);
                last = Some((SUCCESS, None));
                made += 1;
            }
        }
    }
    assert_eq!(calls, plan);
    assert_eq!(made, 5);
}

#[test]
fn dispatch_stops_at_a_failed_call_with_its_error() {
    let k = MetalKernel::new("k", &["x"], &["y"], "body").unwrap();
    let d = k.apply::<u8, f32>().output_shape(vec![2], Dtype::Float32);
    assert_eq!(call_of(d.next_action(0, None)), ConfigStep::AddOutput(0));
    match d.next_action(1, Some((SUCCESS + 1, Some("grid too large".to_string())))) {
        DispatchAction::Fail(e) => assert_eq!(e.what(), "grid too large"),
        other => panic!("expected a failure, got {:?}", other),
    }
    match d.next_action(1, Some((SUCCESS + 1, None))) {
        DispatchAction::Fail(e) => assert_eq!(e.what(), "metal kernel config error"),
        other => panic!("expected a failure, got {:?}", other),
    }
    assert_eq!(call_of(d.next_action(1, Some((SUCCESS, None)))), ConfigStep::SetGrid);
}

#[test]
fn dispatch_refuses_a_template_name_with_a_nul_byte_before_its_call() {
    let k = MetalKernel::new("k", &["x"], &["y"], "body").unwrap();
    let d = k
        .apply::<u8, f32>()
        .output_shape(vec![2], Dtype::Float32)
        .template_arg("T".to_string(), TemplateArg::from(Dtype::Float32))
        .template_arg("ab\0".to_string(), TemplateArg::from(1));
    // Outputs, grid, thread group, verbose: four calls, then the templates.
    assert_eq!(call_of(d.next_action(4, Some((SUCCESS, None)))), ConfigStep::AddTemplateArg(0));
    match d.next_action(5, Some((SUCCESS, None))) {
        DispatchAction::Fail(e) => assert_eq!(e.what(), "nul byte found in provided data at position: 2"),
        other => panic!("expected a failure, got {:?}", other),
    }
}
