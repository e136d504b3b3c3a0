//! The closed sets of names the game works with: poses, background layers and
//! the textures that belong to them.

use vstd::prelude::*;
use vstd::std_specs::convert::FromSpecImpl;

verus! {

/// What the player is doing. Exactly one pose is active in a frame.
#[derive(Debug, Copy, Clone, PartialEq, Eq, Structural)]
pub enum Pose {
    Idle,
    RunningForwards,
    RunningBackwards,
    Rolling,
    Jumping,
}

/// A background layer, from the farthest to the nearest.
#[derive(Debug, Copy, Clone, PartialEq, Eq, Structural)]
pub enum BackgroundFlag {
    BackTrees,
    MiddleTrees,
    FrontTrees,
    Lights,
}

/// A texture of the game. The order of the variants is the order in which
/// the textures are loaded.
#[derive(Debug, Copy, Clone, PartialEq, Eq, Structural)]
pub enum Asset {
    AnimationIdle,
    AnimationRunningForwards,
    AnimationRunningBackwards,
    AnimationRolling,
    AnimationJumping,
    BackTrees,
    MiddleTrees,
    FrontTrees,
    Lights,
}

/// Number of poses.
pub const POSE_COUNT: usize = 5;

/// Number of background layers.
pub const FLAG_COUNT: usize = 4;

/// Number of textures.
pub const ASSET_COUNT: usize = 9;

impl Pose {
    /// Position of the pose in the enumeration.
    pub open spec fn spec_index(self) -> usize {
        match self {
            Pose::Idle => 0,
            Pose::RunningForwards => 1,
            Pose::RunningBackwards => 2,
            Pose::Rolling => 3,
            Pose::Jumping => 4,
        }
    }

    /// Number of frames in the sprite sheet of the pose.
    pub open spec fn spec_frames(self) -> u32 {
        match self {
            Pose::Idle => 10,
            Pose::RunningForwards => 10,
            Pose::RunningBackwards => 10,
            Pose::Rolling => 12,
            Pose::Jumping => 3,
        }
    }

    #[verifier::when_used_as_spec(spec_index)]
    pub fn index(self) -> (i: usize)
        ensures
            i == self.spec_index(),
            i < POSE_COUNT,
    {
        match self {
            Pose::Idle => 0,
            Pose::RunningForwards => 1,
            Pose::RunningBackwards => 2,
            Pose::Rolling => 3,
            Pose::Jumping => 4,
        }
    }

    #[verifier::when_used_as_spec(spec_frames)]
    pub fn frames(self) -> (n: u32)
        ensures
            n == self.spec_frames(),
            n >= 1,
    {
        match self {
            Pose::Idle => 10,
            Pose::RunningForwards => 10,
            Pose::RunningBackwards => 10,
            Pose::Rolling => 12,
            Pose::Jumping => 3,
        }
    }
}

impl BackgroundFlag {
    /// Position of the layer in the enumeration, which is also its bit in
    /// the set of enabled layers and its place in the drawing order.
    pub open spec fn spec_index(self) -> usize {
        match self {
            BackgroundFlag::BackTrees => 0,
            BackgroundFlag::MiddleTrees => 1,
            BackgroundFlag::FrontTrees => 2,
            BackgroundFlag::Lights => 3,
        }
    }

    /// The layer at a position of the enumeration.
    pub open spec fn spec_from_index(i: usize) -> Option<BackgroundFlag> {
        if i == 0 {
            Some(BackgroundFlag::BackTrees)
        } else if i == 1 {
            Some(BackgroundFlag::MiddleTrees)
        } else if i == 2 {
            Some(BackgroundFlag::FrontTrees)
        } else if i == 3 {
            Some(BackgroundFlag::Lights)
        } else {
            None
        }
    }

    #[verifier::when_used_as_spec(spec_index)]
    pub fn index(self) -> (i: usize)
        ensures
            i == self.spec_index(),
            i < FLAG_COUNT,
    {
        match self {
            BackgroundFlag::BackTrees => 0,
            BackgroundFlag::MiddleTrees => 1,
            BackgroundFlag::FrontTrees => 2,
            BackgroundFlag::Lights => 3,
        }
    }

    #[verifier::when_used_as_spec(spec_from_index)]
    pub fn from_index(i: usize) -> (flag: Option<BackgroundFlag>)
        ensures
            flag == BackgroundFlag::spec_from_index(i),
            flag is Some <==> i < FLAG_COUNT,
            flag is Some ==> flag->Some_0.spec_index() == i,
    {
        if i == 0 {
            Some(BackgroundFlag::BackTrees)
        } else if i == 1 {
            Some(BackgroundFlag::MiddleTrees)
        } else if i == 2 {
            Some(BackgroundFlag::FrontTrees)
        } else if i == 3 {
            Some(BackgroundFlag::Lights)
        } else {
            None
        }
    }
}

impl Asset {
    /// The texture of a background layer.
    pub open spec fn of_flag(flag: BackgroundFlag) -> Asset {
        match flag {
            BackgroundFlag::BackTrees => Asset::BackTrees,
            BackgroundFlag::MiddleTrees => Asset::MiddleTrees,
            BackgroundFlag::FrontTrees => Asset::FrontTrees,
            BackgroundFlag::Lights => Asset::Lights,
        }
    }

    /// The sprite sheet of a pose.
    pub open spec fn of_pose(pose: Pose) -> Asset {
        match pose {
            Pose::Idle => Asset::AnimationIdle,
            Pose::RunningForwards => Asset::AnimationRunningForwards,
            Pose::RunningBackwards => Asset::AnimationRunningBackwards,
            Pose::Rolling => Asset::AnimationRolling,
            Pose::Jumping => Asset::AnimationJumping,
        }
    }

    /// Position of the texture in the loading order.
    pub open spec fn spec_index(self) -> usize {
        match self {
            Asset::AnimationIdle => 0,
            Asset::AnimationRunningForwards => 1,
            Asset::AnimationRunningBackwards => 2,
            Asset::AnimationRolling => 3,
            Asset::AnimationJumping => 4,
            Asset::BackTrees => 5,
            Asset::MiddleTrees => 6,
            Asset::FrontTrees => 7,
            Asset::Lights => 8,
        }
    }

    #[verifier::when_used_as_spec(spec_index)]
    pub fn index(self) -> (i: usize)
        ensures
            i == self.spec_index(),
            i < ASSET_COUNT,
    {
        match self {
            Asset::AnimationIdle => 0,
            Asset::AnimationRunningForwards => 1,
            Asset::AnimationRunningBackwards => 2,
            Asset::AnimationRolling => 3,
            Asset::AnimationJumping => 4,
            Asset::BackTrees => 5,
            Asset::MiddleTrees => 6,
            Asset::FrontTrees => 7,
            Asset::Lights => 8,
        }
    }
}

impl From<BackgroundFlag> for Asset {
    /// The texture of a background layer.
    fn from(value: BackgroundFlag) -> (asset: Asset) {
        match value {
            BackgroundFlag::BackTrees => Asset::BackTrees,
            BackgroundFlag::MiddleTrees => Asset::MiddleTrees,
            BackgroundFlag::FrontTrees => Asset::FrontTrees,
            BackgroundFlag::Lights => Asset::Lights,
        }
    }
}

impl FromSpecImpl<BackgroundFlag> for Asset {
    open spec fn obeys_from_spec() -> bool {
        true
    }

    open spec fn from_spec(value: BackgroundFlag) -> Asset {
        Asset::of_flag(value)
    }
}

impl From<Pose> for Asset {
    /// The sprite sheet of a pose.
    fn from(value: Pose) -> (asset: Asset) {
        match value {
            Pose::Idle => Asset::AnimationIdle,
            Pose::RunningForwards => Asset::AnimationRunningForwards,
            Pose::RunningBackwards => Asset::AnimationRunningBackwards,
            Pose::Rolling => Asset::AnimationRolling,
            Pose::Jumping => Asset::AnimationJumping,
        }
    }
}

impl FromSpecImpl<Pose> for Asset {
    open spec fn obeys_from_spec() -> bool {
        true
    }

    open spec fn from_spec(value: Pose) -> Asset {
        Asset::of_pose(value)
    }
}

} // verus!
