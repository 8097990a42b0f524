use gdocean::{ComputeCommand, DispatchUnit, GpuError};

#[test]
fn dispatch_without_dims_or_indirect_buffer_fails() {
    let unit = DispatchUnit::new(1, vec![10], None);
    let r = unit.execute(0, vec![0; 16], None, None);
    assert!(matches!(r, Err(GpuError::MissingBlockDimensions)));
}

#[test]
fn dispatch_without_descriptor_sets_fails() {
    let unit = DispatchUnit::new(1, vec![], Some((4, 4, 1)));
    assert!(matches!(unit.execute(0, vec![], None, None), Err(GpuError::MissingDescriptorSets)));
    assert!(matches!(unit.execute(0, vec![], Some(vec![]), None), Err(GpuError::MissingDescriptorSets)));
}

#[test]
fn dispatch_empty_override_binds_defaults() {
    let unit = DispatchUnit::new(1, vec![10], Some((4, 4, 1)));
    let cmds = unit.execute(0, vec![], Some(vec![]), None).unwrap();
    assert_eq!(cmds.len(), 4);
    assert!(matches!(cmds[2], ComputeCommand::BindUniformSet { set: 10, index: 0, .. }));
}

#[test]
fn dispatch_binds_defaults_in_order() {
    let unit = DispatchUnit::new(7, vec![10, 11], Some((8, 4, 2)));
    let cmds = unit.execute(3, vec![1, 2, 3, 4], None, None).unwrap();
    assert_eq!(cmds.len(), 5);
    assert!(matches!(cmds[0], ComputeCommand::BindPipeline { list: 3, pipeline: 7 }));
    match &cmds[1] {
        ComputeCommand::SetPushConstant { list, bytes } => {
            assert_eq!(*list, 3);
            assert_eq!(bytes, &vec![1, 2, 3, 4]);
        }
        other => panic!("unexpected {:?}", other),
    }
    assert!(matches!(cmds[2], ComputeCommand::BindUniformSet { list: 3, set: 10, index: 0 }));
    assert!(matches!(cmds[3], ComputeCommand::BindUniformSet { list: 3, set: 11, index: 1 }));
    assert!(matches!(cmds[4], ComputeCommand::Dispatch { list: 3, x: 8, y: 4, z: 2 }));
}

#[test]
fn dispatch_override_replaces_defaults() {
    let unit = DispatchUnit::new(7, vec![10, 11], Some((1, 1, 1)));
    let cmds = unit.execute(0, vec![], Some(vec![20]), None).unwrap();
    assert_eq!(cmds.len(), 4);
    assert!(matches!(cmds[2], ComputeCommand::BindUniformSet { set: 20, index: 0, .. }));
    assert!(!cmds.iter().any(|c| matches!(c, ComputeCommand::BindUniformSet { set: 10, .. } | ComputeCommand::BindUniformSet { set: 11, .. })));
}

#[test]
fn dispatch_indirect_uses_buffer_and_offset() {
    let unit = DispatchUnit::new(7, vec![10], None);
    let cmds = unit.execute(2, vec![], None, Some((99, 12))).unwrap();
    assert!(matches!(cmds.last().unwrap(), ComputeCommand::DispatchIndirect { list: 2, buffer: 99, offset: 12 }));
    let unit = DispatchUnit::new(7, vec![10], Some((1, 2, 3)));
    let cmds = unit.execute(2, vec![], None, Some((99, 0))).unwrap();
    assert!(matches!(cmds.last().unwrap(), ComputeCommand::DispatchIndirect { buffer: 99, offset: 0, .. }));
}
