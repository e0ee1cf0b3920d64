use input_planner::context::ContextEntry;
use input_planner::context::TensorContext;
use input_planner::plan::FuseSettings;
use input_planner::plan::LaunchPlan;
use input_planner::planner::InputPlanner;
use input_planner::planner::RegisteredInput;
use input_planner::tensor::BufferHandle;
use input_planner::tensor::Precision;
use input_planner::tensor::TensorDesc;
use input_planner::tensor::TensorId;
use input_planner::tensor::TensorStatus;
use input_planner::views::InputReference;
use input_planner::views::TensorView;

#[test]
fn every_input_gets_one_binding_index_aligned() {
    let inputs = vec![
        RegisteredInput {
            tensor: TensorDesc { id: TensorId(1), shape: vec![4, 4], status: TensorStatus::ReadOnly },
            precision: Precision(3),
        },
        RegisteredInput {
            tensor: TensorDesc { id: TensorId(2), shape: vec![2, 2], status: TensorStatus::ReadOnly },
            precision: Precision(5),
        },
        RegisteredInput {
            tensor: TensorDesc { id: TensorId(3), shape: vec![4, 4], status: TensorStatus::ReadWrite },
            precision: Precision(7),
        },
    ];
    let unhandled: Vec<TensorId> = Vec::new();
    let views: Vec<TensorView> = Vec::new();
    let shape_ref: Vec<usize> = vec![4, 4];
    let settings = FuseSettings { inplace: false };
    let context = TensorContext {
        entries: vec![
            ContextEntry {
                relative_id: TensorId(1),
                global: TensorDesc { id: TensorId(11), shape: vec![4, 4], status: TensorStatus::ReadWrite },
                handle: BufferHandle { strides: vec![4, 1], can_mut: false },
            },
            ContextEntry {
                relative_id: TensorId(2),
                global: TensorDesc { id: TensorId(12), shape: vec![2, 2], status: TensorStatus::ReadOnly },
                handle: BufferHandle { strides: vec![2, 1], can_mut: false },
            },
            ContextEntry {
                relative_id: TensorId(3),
                global: TensorDesc { id: TensorId(13), shape: vec![4, 4], status: TensorStatus::ReadWrite },
                handle: BufferHandle { strides: vec![4, 1], can_mut: true },
            },
        ],
    };
    let planner = InputPlanner::new(&inputs, &unhandled, &views, &shape_ref, &settings);
    let mut plan = LaunchPlan::new(2);
    planner.run(&context, &mut plan);

    assert_eq!(plan.handle_inputs.len(), 3);
    assert_eq!(plan.global_inputs.len(), 3);
    for (i, binding) in plan.handle_inputs.iter().enumerate() {
        assert_eq!(binding.relative_id, inputs[i].tensor.id);
        assert_eq!(binding.precision, inputs[i].precision);
        assert_eq!(binding.vectorization, 1);
        assert!(!binding.broadcasted);
        assert_eq!(binding.global_id, plan.global_inputs[i].id);
        assert_eq!(binding.global_shape, plan.global_inputs[i].shape);
    }
    assert_eq!(plan.global_inputs[0].id, TensorId(11));
    assert_eq!(plan.global_inputs[1].id, TensorId(12));
    assert_eq!(plan.global_inputs[2].id, TensorId(13));
    // settings forbid in-place reuse, so even the mutable read-write input
    // proposes nothing; position 0 is still the Normal reference
    assert!(plan.potential_inplaces.is_empty());
    assert_eq!(
        plan.potential_reference_input,
        Some(InputReference::Normal { input_pos: 0 })
    );
}

#[test]
fn low_rank_input_is_left_padded() {
    // global shape [3] at working rank 2: the shape is padded to [1, 3] and
    // the stride list gains one leading copy of the element count 3
    let inputs = vec![RegisteredInput {
        tensor: TensorDesc { id: TensorId(1), shape: vec![3], status: TensorStatus::ReadOnly },
        precision: Precision(0),
    }];
    let unhandled: Vec<TensorId> = Vec::new();
    let views: Vec<TensorView> = Vec::new();
    let shape_ref: Vec<usize> = vec![1, 3];
    let settings = FuseSettings { inplace: true };
    let context = TensorContext {
        entries: vec![ContextEntry {
            relative_id: TensorId(1),
            global: TensorDesc { id: TensorId(1), shape: vec![3], status: TensorStatus::ReadOnly },
            handle: BufferHandle { strides: vec![1], can_mut: false },
        }],
    };
    let planner = InputPlanner::new(&inputs, &unhandled, &views, &shape_ref, &settings);
    let mut plan = LaunchPlan::new(2);
    planner.run(&context, &mut plan);

    assert_eq!(plan.handle_inputs.len(), 1);
    assert_eq!(plan.global_inputs[0].shape, vec![1, 3]);
    assert_eq!(plan.handle_inputs[0].global_shape, vec![1, 3]);
    assert_eq!(plan.handle_inputs[0].handle.strides, vec![3, 1]);
}

#[test]
fn padding_amount_and_value_follow_the_original_shape() {
    // rank 4, global shape [2, 5]: two leading 1s, two leading strides of 10
    let inputs = vec![RegisteredInput {
        tensor: TensorDesc { id: TensorId(1), shape: vec![2, 5], status: TensorStatus::ReadOnly },
        precision: Precision(0),
    }];
    let unhandled: Vec<TensorId> = Vec::new();
    let views: Vec<TensorView> = Vec::new();
    let shape_ref: Vec<usize> = vec![1, 1, 2, 5];
    let settings = FuseSettings { inplace: true };
    let context = TensorContext {
        entries: vec![ContextEntry {
            relative_id: TensorId(1),
            global: TensorDesc { id: TensorId(1), shape: vec![2, 5], status: TensorStatus::ReadOnly },
            handle: BufferHandle { strides: vec![5, 1], can_mut: false },
        }],
    };
    let planner = InputPlanner::new(&inputs, &unhandled, &views, &shape_ref, &settings);
    let mut plan = LaunchPlan::new(4);
    planner.run(&context, &mut plan);

    assert_eq!(plan.global_inputs[0].shape, vec![1, 1, 2, 5]);
    assert_eq!(plan.handle_inputs[0].handle.strides, vec![10, 10, 5, 1]);
}

#[test]
fn classification_sees_the_unpadded_shape() {
    // the relative shape matches the reference shape, so the input becomes
    // the Normal reference and an in-place candidate even though its global
    // shape is of lower rank and gets padded afterwards; the candidate
    // records the original, unpadded strides
    let inputs = vec![RegisteredInput {
        tensor: TensorDesc { id: TensorId(1), shape: vec![1, 3], status: TensorStatus::ReadWrite },
        precision: Precision(0),
    }];
    let unhandled: Vec<TensorId> = Vec::new();
    let views: Vec<TensorView> = Vec::new();
    let shape_ref: Vec<usize> = vec![1, 3];
    let settings = FuseSettings { inplace: true };
    let context = TensorContext {
        entries: vec![ContextEntry {
            relative_id: TensorId(1),
            global: TensorDesc { id: TensorId(1), shape: vec![3], status: TensorStatus::ReadWrite },
            handle: BufferHandle { strides: vec![1], can_mut: true },
        }],
    };
    let planner = InputPlanner::new(&inputs, &unhandled, &views, &shape_ref, &settings);
    let mut plan = LaunchPlan::new(2);
    planner.run(&context, &mut plan);

    assert_eq!(
        plan.potential_reference_input,
        Some(InputReference::Normal { input_pos: 0 })
    );
    assert_eq!(plan.potential_inplaces.len(), 1);
    assert_eq!(plan.potential_inplaces[0].strides, vec![1]);
    assert_eq!(plan.handle_inputs[0].handle.strides, vec![3, 1]);
    assert_eq!(plan.global_inputs[0].shape, vec![1, 3]);
}

#[test]
fn zero_sized_input_pads_with_zero_count() {
    // a dimension of 0 makes the element count 0; the padded stride is 0
    let inputs = vec![RegisteredInput {
        tensor: TensorDesc { id: TensorId(1), shape: vec![0], status: TensorStatus::ReadOnly },
        precision: Precision(0),
    }];
    let unhandled: Vec<TensorId> = Vec::new();
    let views: Vec<TensorView> = Vec::new();
    let shape_ref: Vec<usize> = vec![2, 2];
    let settings = FuseSettings { inplace: true };
    let context = TensorContext {
        entries: vec![ContextEntry {
            relative_id: TensorId(1),
            global: TensorDesc { id: TensorId(1), shape: vec![0], status: TensorStatus::ReadOnly },
            handle: BufferHandle { strides: vec![1], can_mut: false },
        }],
    };
    let planner = InputPlanner::new(&inputs, &unhandled, &views, &shape_ref, &settings);
    let mut plan = LaunchPlan::new(2);
    planner.run(&context, &mut plan);

    assert_eq!(plan.global_inputs[0].shape, vec![1, 0]);
    assert_eq!(plan.handle_inputs[0].handle.strides, vec![0, 1]);
    assert_eq!(plan.potential_reference_input, None);
}

#[test]
fn already_at_rank_is_untouched() {
    let inputs = vec![RegisteredInput {
        tensor: TensorDesc { id: TensorId(1), shape: vec![4, 4], status: TensorStatus::ReadOnly },
        precision: Precision(0),
    }];
    let unhandled: Vec<TensorId> = Vec::new();
    let views: Vec<TensorView> = Vec::new();
    let shape_ref: Vec<usize> = vec![4, 4];
    let settings = FuseSettings { inplace: true };
    let context = TensorContext {
        entries: vec![ContextEntry {
            relative_id: TensorId(1),
            global: TensorDesc { id: TensorId(1), shape: vec![4, 4], status: TensorStatus::ReadOnly },
            handle: BufferHandle { strides: vec![4, 1], can_mut: false },
        }],
    };
    let planner = InputPlanner::new(&inputs, &unhandled, &views, &shape_ref, &settings);
    let mut plan = LaunchPlan::new(2);
    planner.run(&context, &mut plan);

    assert_eq!(plan.global_inputs[0].shape, vec![4, 4]);
    assert_eq!(plan.handle_inputs[0].handle.strides, vec![4, 1]);
}
