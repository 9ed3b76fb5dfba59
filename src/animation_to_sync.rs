use vstd::prelude::*;

use crate::collections::{copy_items, take_vec};
use crate::identifier::Identifier;

verus! {

/// An encoded animation together with the variable contexts that place it.
#[derive(Debug, Clone)]
pub struct FetchAnimationToSyncWithItsContexts {
    anim_raw_bytes: Vec<u8>,
    anim_variable_context: Vec<AnimVariableContext>,
}

impl FetchAnimationToSyncWithItsContexts {
    pub closed spec fn spec_raw_bytes(&self) -> Seq<u8> {
        self.anim_raw_bytes@
    }

    pub closed spec fn spec_variable_contexts(&self) -> Seq<AnimVariableContext> {
        self.anim_variable_context@
    }

    pub fn new(anim_raw_bytes: Vec<u8>, anim_variable_context: Vec<AnimVariableContext>) -> (r: Self)
        ensures
            r.spec_raw_bytes() == anim_raw_bytes@,
            r.spec_variable_contexts() == anim_variable_context@,
    {
        FetchAnimationToSyncWithItsContexts { anim_raw_bytes, anim_variable_context }
    }

    pub fn animation_raw_bytes(&self) -> (r: &[u8])
        ensures
            r@ == self.spec_raw_bytes(),
    {
        self.anim_raw_bytes.as_slice()
    }

    /// Moves the encoded animation out, leaving no bytes behind.
    pub fn take_raw_bytes(&mut self) -> (r: Vec<u8>)
        ensures
            r@ == old(self).spec_raw_bytes(),
            final(self).spec_raw_bytes() == Seq::<u8>::empty(),
            final(self).spec_variable_contexts() == old(self).spec_variable_contexts(),
    {
        take_vec(&mut self.anim_raw_bytes)
    }

    pub fn animation_variable_context(&self) -> (r: Vec<AnimVariableContext>)
        ensures
            r@ == self.spec_variable_contexts(),
    {
        copy_items(&self.anim_variable_context)
    }
}

/// An encoded animation and its id.
#[derive(Debug, Clone)]
pub struct FetchAnimationToSyncWithoutContext {
    anim_id: Identifier,
    anim_raw_bytes: Vec<u8>,
}

impl FetchAnimationToSyncWithoutContext {
    pub closed spec fn spec_anim_id(&self) -> Identifier {
        self.anim_id
    }

    pub closed spec fn spec_raw_bytes(&self) -> Seq<u8> {
        self.anim_raw_bytes@
    }

    pub fn new(anim_raw_bytes: Vec<u8>, anim_id: Identifier) -> (r: Self)
        ensures
            r.spec_anim_id() == anim_id,
            r.spec_raw_bytes() == anim_raw_bytes@,
    {
        FetchAnimationToSyncWithoutContext { anim_id, anim_raw_bytes }
    }

    pub fn animation_raw_bytes(&self) -> (r: &[u8])
        ensures
            r@ == self.spec_raw_bytes(),
    {
        self.anim_raw_bytes.as_slice()
    }

    /// Moves the encoded animation out, leaving no bytes behind.
    pub fn take_raw_bytes(&mut self) -> (r: Vec<u8>)
        ensures
            r@ == old(self).spec_raw_bytes(),
            final(self).spec_raw_bytes() == Seq::<u8>::empty(),
            final(self).spec_anim_id() == old(self).spec_anim_id(),
    {
        take_vec(&mut self.anim_raw_bytes)
    }

    pub fn anim_id(&self) -> (r: Identifier)
        ensures
            r == self.spec_anim_id(),
    {
        self.anim_id
    }
}

/// A new animation to store on the server.
#[derive(Debug, Clone)]
pub struct SyncNewAnim {
    anim_id: Identifier,
    author_id: Identifier,
    data: Vec<u8>,
    fps: u8,
    frame_width: u32,
    frame_height: u32,
}

impl SyncNewAnim {
    pub closed spec fn spec_anim_id(&self) -> Identifier {
        self.anim_id
    }

    pub closed spec fn spec_author_id(&self) -> Identifier {
        self.author_id
    }

    pub closed spec fn spec_data(&self) -> Seq<u8> {
        self.data@
    }

    pub closed spec fn spec_fps(&self) -> u8 {
        self.fps
    }

    pub closed spec fn spec_frame_width(&self) -> u32 {
        self.frame_width
    }

    pub closed spec fn spec_frame_height(&self) -> u32 {
        self.frame_height
    }

    pub fn new(
        anim_id: Identifier,
        author_id: Identifier,
        data: Vec<u8>,
        fps: u8,
        frame_width: u32,
        frame_height: u32,
    ) -> (r: Self)
        ensures
            r.spec_anim_id() == anim_id,
            r.spec_author_id() == author_id,
            r.spec_data() == data@,
            r.spec_fps() == fps,
            r.spec_frame_width() == frame_width,
            r.spec_frame_height() == frame_height,
    {
        SyncNewAnim { anim_id, author_id, data, fps, frame_width, frame_height }
    }

    pub fn anim_id(&self) -> (r: Identifier)
        ensures
            r == self.spec_anim_id(),
    {
        self.anim_id
    }

    pub fn author_id(&self) -> (r: Identifier)
        ensures
            r == self.spec_author_id(),
    {
        self.author_id
    }

    pub fn data_len(&self) -> (r: usize)
        ensures
            r == self.spec_data().len(),
    {
        self.data.len()
    }

    pub fn as_slice(&self) -> (r: &[u8])
        ensures
            r@ == self.spec_data(),
    {
        self.data.as_slice()
    }

    pub fn frame_width(&self) -> (r: u32)
        ensures
            r == self.spec_frame_width(),
    {
        self.frame_width
    }

    pub fn frame_height(&self) -> (r: u32)
        ensures
            r == self.spec_frame_height(),
    {
        self.frame_height
    }

    pub fn fps(&self) -> (r: u8)
        ensures
            r == self.spec_fps(),
    {
        self.fps
    }

    /// Moves the encoded animation out, leaving no bytes behind.
    pub fn take_data(&mut self) -> (r: Vec<u8>)
        ensures
            r@ == old(self).spec_data(),
            final(self).spec_data() == Seq::<u8>::empty(),
            final(self).spec_anim_id() == old(self).spec_anim_id(),
            final(self).spec_author_id() == old(self).spec_author_id(),
            final(self).spec_fps() == old(self).spec_fps(),
            final(self).spec_frame_width() == old(self).spec_frame_width(),
            final(self).spec_frame_height() == old(self).spec_frame_height(),
    {
        take_vec(&mut self.data)
    }
}

/// Resolution of the quantized positions: a normalized coordinate `x` of
/// `[0, 1]` travels as the integer nearest to `x * QUANTIZATION_RESOLUTION`.
pub const QUANTIZATION_RESOLUTION: u32 = 65535;

/// The place of an animation inside a context, in its quantized wire form:
/// each coordinate is a normalized position carried as an integer of
/// `[0, QUANTIZATION_RESOLUTION]`.
#[derive(Debug, Clone, Copy)]
pub struct AnimVariableContext {
    anim_id: Identifier,
    context_id: Identifier,
    context_version: u64,
    variable_context_version: u64,
    x_pos: u32,
    y_pos: u32,
}

impl AnimVariableContext {
    pub closed spec fn spec_anim_id(&self) -> Identifier {
        self.anim_id
    }

    pub closed spec fn spec_context_id(&self) -> Identifier {
        self.context_id
    }

    pub closed spec fn spec_context_version(&self) -> u64 {
        self.context_version
    }

    pub closed spec fn spec_variable_context_version(&self) -> u64 {
        self.variable_context_version
    }

    pub closed spec fn spec_pos(&self) -> (u32, u32) {
        (self.x_pos, self.y_pos)
    }

    pub fn new(
        anim_id: Identifier,
        context_id: Identifier,
        context_version: u64,
        variable_context_version: u64,
        x_pos: u32,
        y_pos: u32,
    ) -> (r: Self)
        ensures
            r.spec_anim_id() == anim_id,
            r.spec_context_id() == context_id,
            r.spec_context_version() == context_version,
            r.spec_variable_context_version() == variable_context_version,
            r.spec_pos() == (x_pos, y_pos),
    {
        AnimVariableContext { anim_id, context_id, context_version, variable_context_version, x_pos, y_pos }
    }

    /// The quantized `[x, y]` position.
    pub fn pos(&self) -> (r: [u32; 2])
        ensures
            r@ == seq![self.spec_pos().0, self.spec_pos().1],
    {
        let r = [self.x_pos, self.y_pos];
        assert(r@ =~= seq![self.x_pos, self.y_pos]);
        r
    }

    pub fn context_id(&self) -> (r: Identifier)
        ensures
            r == self.spec_context_id(),
    {
        self.context_id
    }

    pub fn anim_id(&self) -> (r: Identifier)
        ensures
            r == self.spec_anim_id(),
    {
        self.anim_id
    }

    pub fn variable_context_version(&self) -> (r: u64)
        ensures
            r == self.spec_variable_context_version(),
    {
        self.variable_context_version
    }

    pub fn context_version(&self) -> (r: u64)
        ensures
            r == self.spec_context_version(),
    {
        self.context_version
    }
}

/// The server's status code for a stored animation.
#[derive(Debug, Clone, Copy)]
pub struct SyncNewAnimResponse {
    code: usize,
}

impl SyncNewAnimResponse {
    pub closed spec fn spec_code(&self) -> usize {
        self.code
    }

    pub fn new_with_code(code: usize) -> (r: Self)
        ensures
            r.spec_code() == code,
    {
        SyncNewAnimResponse { code }
    }

    pub fn code(&self) -> (r: usize)
        ensures
            r == self.spec_code(),
    {
        self.code
    }
}

/// An animation that a user has to fetch, and the context it belongs to.
#[derive(Debug, Clone, Copy)]
pub struct AnimationRefToFetch {
    anim_id: Identifier,
    context_id: Identifier,
    user_id: Identifier,
}

impl AnimationRefToFetch {
    pub closed spec fn spec_anim_id(&self) -> Identifier {
        self.anim_id
    }

    pub closed spec fn spec_context_id(&self) -> Identifier {
        self.context_id
    }

    pub closed spec fn spec_user_id(&self) -> Identifier {
        self.user_id
    }

    pub fn new(anim_id: Identifier, context_id: Identifier, user_id: Identifier) -> (r: Self)
        ensures
            r.spec_anim_id() == anim_id,
            r.spec_context_id() == context_id,
            r.spec_user_id() == user_id,
    {
        AnimationRefToFetch { anim_id, context_id, user_id }
    }

    pub fn anim_id(&self) -> (r: Identifier)
        ensures
            r == self.spec_anim_id(),
    {
        self.anim_id
    }

    pub fn context_id(&self) -> (r: Identifier)
        ensures
            r == self.spec_context_id(),
    {
        self.context_id
    }

    pub fn user_id(&self) -> (r: Identifier)
        ensures
            r == self.spec_user_id(),
    {
        self.user_id
    }
}

} // verus!
