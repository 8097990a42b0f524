use vstd::prelude::*;

use crate::error::GpuError;

verus! {

/// Block dimensions of a direct dispatch.
pub type BlockDims = (u32, u32, u32);

/// One command recorded into an open compute list.
#[derive(Debug)]
pub enum ComputeCommand {
    BindPipeline { list: i64, pipeline: u64 },
    SetPushConstant { list: i64, bytes: Vec<u8> },
    BindUniformSet { list: i64, set: u64, index: u32 },
    Dispatch { list: i64, x: u32, y: u32, z: u32 },
    DispatchIndirect { list: i64, buffer: u64, offset: u32 },
}

/// A compute pipeline together with the descriptor sets and block
/// dimensions it is dispatched with unless a call overrides them.
pub struct DispatchUnit {
    pub pipeline: u64,
    pub default_sets: Vec<u64>,
    pub block_dims: Option<BlockDims>,
}

/// The descriptor sets that an invocation binds: a non-empty override list
/// replaces the defaults entirely; an empty one counts as no override.
pub open spec fn bound_sets(defaults: Seq<u64>, overrides: Option<Vec<u64>>) -> Seq<u64> {
    match overrides {
        Some(v) => if v@.len() > 0 { v@ } else { defaults },
        None => defaults,
    }
}

/// The error an invocation reports, if any.
pub open spec fn dispatch_error(
    block_dims: Option<BlockDims>,
    sets: Seq<u64>,
    indirect: Option<(u64, u32)>,
) -> Option<GpuError> {
    if block_dims is None && indirect is None {
        Some(GpuError::MissingBlockDimensions)
    } else if sets.len() == 0 {
        Some(GpuError::MissingDescriptorSets)
    } else {
        None
    }
}

/// The final command of an invocation: indirect when a buffer is given,
/// direct with the block dimensions otherwise.
pub open spec fn dispatch_command(list: i64, block_dims: Option<BlockDims>, indirect: Option<(u64, u32)>) -> ComputeCommand {
    match indirect {
        Some(ind) => ComputeCommand::DispatchIndirect { list, buffer: ind.0, offset: ind.1 },
        None => {
            let d = block_dims.unwrap();
            ComputeCommand::Dispatch { list, x: d.0, y: d.1, z: d.2 }
        },
    }
}

impl DispatchUnit {
    pub fn new(pipeline: u64, default_sets: Vec<u64>, block_dims: Option<BlockDims>) -> (r: Self)
        ensures
            r.pipeline == pipeline,
            r.default_sets == default_sets,
            r.block_dims == block_dims,
    {
        DispatchUnit { pipeline, default_sets, block_dims }
    }

    /// The commands of one invocation, in order: bind the pipeline, set the
    /// push constant, bind each descriptor set at its position, dispatch.
    pub fn execute(
        &self,
        list: i64,
        push_constant: Vec<u8>,
        overrides: Option<Vec<u64>>,
        indirect: Option<(u64, u32)>,
    ) -> (r: Result<Vec<ComputeCommand>, GpuError>)
        requires
            bound_sets(self.default_sets@, overrides).len() <= u32::MAX,
        ensures
            ({
                let sets = bound_sets(self.default_sets@, overrides);
                match dispatch_error(self.block_dims, sets, indirect) {
                    Some(e) => r == Err::<Vec<ComputeCommand>, GpuError>(e),
                    None => r is Ok && {
                        let cmds = r.unwrap()@;
                        &&& cmds.len() == sets.len() + 3
                        &&& cmds[0] == (ComputeCommand::BindPipeline { list, pipeline: self.pipeline })
                        &&& cmds[1] == (ComputeCommand::SetPushConstant { list, bytes: push_constant })
                        &&& forall|i: int| 2 <= i < sets.len() + 2 ==>
                            #[trigger] cmds[i] == (ComputeCommand::BindUniformSet { list, set: sets[i - 2], index: (i - 2) as u32 })
                        &&& cmds.last() == dispatch_command(list, self.block_dims, indirect)
                    },
                }
            }),
    {
        let sets: &Vec<u64> = match &overrides {
            Some(v) => if v.len() > 0 { v } else { &self.default_sets },
            None => &self.default_sets,
        };
        if self.block_dims.is_none() && indirect.is_none() {
            return Err(GpuError::MissingBlockDimensions);
        }
        if sets.len() == 0 {
            return Err(GpuError::MissingDescriptorSets);
        }
        let mut cmds: Vec<ComputeCommand> = Vec::new();
        cmds.push(ComputeCommand::BindPipeline { list, pipeline: self.pipeline });
        cmds.push(ComputeCommand::SetPushConstant { list, bytes: push_constant });
        let n = sets.len();
        let mut i: usize = 0;
        while i < n
            invariant
                i <= n,
                n == sets@.len(),
                n <= u32::MAX,
                sets@ == bound_sets(self.default_sets@, overrides),
                cmds@.len() == i + 2,
                cmds@[0] == (ComputeCommand::BindPipeline { list, pipeline: self.pipeline }),
                cmds@[1] == (ComputeCommand::SetPushConstant { list, bytes: push_constant }),
                forall|k: int| 2 <= k < i + 2 ==>
                    #[trigger] cmds@[k] == (ComputeCommand::BindUniformSet { list, set: sets@[k - 2], index: (k - 2) as u32 }),
            decreases n - i,
        {
            cmds.push(ComputeCommand::BindUniformSet { list, set: sets[i], index: i as u32 });
            i = i + 1;
        }
        let last = match indirect {
            Some(ind) => ComputeCommand::DispatchIndirect { list, buffer: ind.0, offset: ind.1 },
            None => {
                let d = self.block_dims.unwrap();
                ComputeCommand::Dispatch { list, x: d.0, y: d.1, z: d.2 }
            },
        };
        cmds.push(last);
        Ok(cmds)
    }
}

} // verus!
