//! A pool of reusable textures of one kind.
use crate::error::HResult;
use vstd::prelude::*;

verus! {

/// What a texture of a pool is created with.
#[derive(Clone, Copy, Debug, PartialEq, Eq, Structural)]
pub struct TextureDesc {
    /// The width in pixels.
    pub width: u32,
    /// The height in pixels.
    pub height: u32,
    /// The number of mipmap levels.
    pub mip_levels: u32,
    /// The number of textures in the array.
    pub array_size: u32,
    /// The number of the pixel format.
    pub format: u32,
    /// Samples per pixel.
    pub sample_count: u32,
    /// The quality of multisampling.
    pub sample_quality: u32,
    /// How the texture is to be read and written.
    pub usage: u32,
    /// The pipeline stages that it can be bound to.
    pub bind_flags: u32,
    /// The kinds of processor access.
    pub cpu_access: u32,
    /// Other options.
    pub misc_flags: u32,
}

/// A single texture without mipmaps and without multisampling.
pub open spec fn plain_texture(
    width: u32,
    height: u32,
    format: u32,
    usage: u32,
    bind_flags: u32,
    cpu_access: u32,
    misc_flags: u32,
) -> TextureDesc {
    TextureDesc {
        width,
        height,
        mip_levels: 1,
        array_size: 1,
        format,
        sample_count: 1,
        sample_quality: 0,
        usage,
        bind_flags,
        cpu_access,
        misc_flags,
    }
}

/// A pool of textures that share one description.
pub struct TexturePool<T> {
    /// The description of every texture of the pool.
    pub desc: TextureDesc,
    /// The textures that are ready for use, the next one last.
    pub textures: Vec<T>,
    /// The number of textures that the pool was made with.
    pub capacity: usize,
}

impl<T> TexturePool<T> {
    /// The description of every texture of the pool.
    pub open spec fn description(self) -> TextureDesc {
        self.desc
    }

    /// The textures that are ready for use, the next one last.
    pub open spec fn available(self) -> Seq<T> {
        self.textures@
    }

    /// The number of textures that the pool was made with.
    pub open spec fn initial_capacity(self) -> usize {
        self.capacity
    }

    /// A pool with `capacity` textures, each from its own call of `create`.
    ///
    /// The first creation that fails ends the work, and its code is returned.
    pub fn new<F: Fn(TextureDesc) -> Result<T, HResult>>(
        create: F,
        capacity: usize,
        width: u32,
        height: u32,
        format: u32,
        usage: u32,
        bind_flags: u32,
        cpu_access: u32,
        misc_flags: u32,
    ) -> (r: Result<Self, HResult>)
        requires
            capacity > 0 ==> create.requires(
                (plain_texture(width, height, format, usage, bind_flags, cpu_access, misc_flags),),
            ),
        ensures
            match r {
                Ok(pool) => {
                    &&& pool.description() == plain_texture(
                        width,
                        height,
                        format,
                        usage,
                        bind_flags,
                        cpu_access,
                        misc_flags,
                    )
                    &&& pool.initial_capacity() == capacity
                    &&& pool.available().len() == capacity
                    &&& forall|i: int|
                        0 <= i < capacity ==> create.ensures(
                            (pool.description(),),
                            Ok::<T, HResult>(#[trigger] pool.available()[i]),
                        )
                },
                Err(code) => capacity > 0 && create.ensures(
                    (plain_texture(
                        width,
                        height,
                        format,
                        usage,
                        bind_flags,
                        cpu_access,
                        misc_flags,
                    ),),
                    Err::<T, HResult>(code),
                ),
            },
    {
        let desc = Self::create_texture(
            width,
            height,
            format,
            usage,
            bind_flags,
            cpu_access,
            misc_flags,
        );
        let mut textures: Vec<T> = Vec::with_capacity(capacity);
        for i in 0..capacity
            invariant
                capacity > 0 ==> create.requires((desc,)),
                textures@.len() == i,
                forall|j: int|
                    0 <= j < i ==> create.ensures((desc,), Ok::<T, HResult>(#[trigger] textures@[j])),
                desc == plain_texture(
                    width,
                    height,
                    format,
                    usage,
                    bind_flags,
                    cpu_access,
                    misc_flags,
                ),
        {
            match create(desc) {
                Ok(texture) => {
                    textures.push(texture);
                },
                Err(code) => {
                    return Err(code);
                },
            }
        }
        Ok(TexturePool { desc, textures, capacity })
    }

    /// The texture that was released last, or a new one from `create` where
    /// the pool is empty. None is created where the pool holds one.
    pub fn acquire_texture<F: FnOnce(TextureDesc) -> Result<T, HResult>>(&mut self, create: F) -> (r:
        Result<T, HResult>)
        requires
            old(self).available().len() == 0 ==> create.requires((old(self).description(),)),
        ensures
            final(self).description() == old(self).description(),
            final(self).initial_capacity() == old(self).initial_capacity(),
            old(self).available().len() > 0 ==> {
                &&& r == Ok::<T, HResult>(old(self).available().last())
                &&& final(self).available() == old(self).available().drop_last()
            },
            old(self).available().len() == 0 ==> {
                &&& create.ensures((old(self).description(),), r)
                &&& final(self).available() == old(self).available()
            },
    {
        match self.textures.pop() {
            Some(texture) => Ok(texture),
            None => create(self.desc),
        }
    }

    /// Puts a texture back for reuse. The pool may grow beyond the number of
    /// textures that it was made with.
    pub fn release_texture(&mut self, texture: T)
        ensures
            final(self).description() == old(self).description(),
            final(self).initial_capacity() == old(self).initial_capacity(),
            final(self).available() == old(self).available().push(texture),
    {
        self.textures.push(texture);
    }

    /// The description of a single texture.
    pub fn create_texture(
        width: u32,
        height: u32,
        format: u32,
        usage: u32,
        bind_flags: u32,
        cpu_access: u32,
        misc_flags: u32,
    ) -> (r: TextureDesc)
        ensures
            r == plain_texture(
                width,
                height,
                format,
                usage,
                bind_flags,
                cpu_access,
                misc_flags,
            ),
    {
        TextureDesc {
            width,
            height,
            mip_levels: 1,
            array_size: 1,
            format,
            sample_count: 1,
            sample_quality: 0,
            usage,
            bind_flags,
            cpu_access,
            misc_flags,
        }
    }

    /// The number of textures that the pool was made with.
    pub fn capacity(&self) -> (r: usize)
        ensures
            r == self.initial_capacity(),
    {
        self.capacity
    }
}

/// A texture that is put back is the one that the next acquisition hands out
/// without creating any, and the pool then holds what it held before.
pub proof fn release_then_acquire<T>(before: TexturePool<T>, texture: T, released: TexturePool<T>)
    requires
        released.available() == before.available().push(texture),
    ensures
        released.available().len() == before.available().len() + 1,
        released.available().last() == texture,
        released.available().drop_last() == before.available(),
{
    assert(released.available().drop_last() =~= before.available());
}

/// The textures of a pool have the size and the options that were asked for, one
/// level and one sample per pixel.
pub proof fn textures_are_what_was_asked_for(
    width: u32,
    height: u32,
    format: u32,
    usage: u32,
    bind_flags: u32,
    cpu_access: u32,
    misc_flags: u32,
)
    ensures
        ({
            let desc = plain_texture(
                width,
                height,
                format,
                usage,
                bind_flags,
                cpu_access,
                misc_flags,
            );
            &&& desc.width == width
            &&& desc.height == height
            &&& desc.format == format
            &&& desc.usage == usage
            &&& desc.bind_flags == bind_flags
            &&& desc.cpu_access == cpu_access
            &&& desc.misc_flags == misc_flags
            &&& desc.mip_levels == 1
            &&& desc.array_size == 1
            &&& desc.sample_count == 1
            &&& desc.sample_quality == 0
        }),
{
}

} // verus!
