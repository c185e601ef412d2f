use vstd::prelude::*;

use crate::error::Error;
use crate::props::{supported, tag_of, KeyPath, Property, PropertyValue};
use crate::{contains_nul, is_boundary_safe};

verus! {

/// A caller-owned pixel buffer that rendering rasterizes into.
///
/// `new` is expected to allocate room for `height` rows of `bytes_per_line`
/// pixel units each; `buffer` exposes that storage for a render call. The
/// library never owns a surface: it only states, on each render entry point,
/// the size the buffer must have.
pub trait Surface: Sized {
    fn new(width: usize, height: usize, bytes_per_line: usize) -> Self;

    fn set_draw_region(&mut self, x: usize, y: usize, width: usize, height: usize);

    fn buffer(&mut self) -> &mut [u32];
}

/// One numeric argument of an engine override call: either the bit pattern
/// of a binary32 scalar, or a plain integer coordinate. The embedding code
/// widens each to the engine's double-precision calling convention.
#[derive(Clone, Copy, Debug, PartialEq, Eq, Structural)]
pub enum OverrideArg {
    Scalar(u32),
    Coord(i32),
}

/// The ordered argument list that an override of value `v` hands to the
/// engine: three channels for a color, one scalar for an opacity, a width or
/// a rotation, and a pair for a position or a scale.
pub open spec fn override_args(v: PropertyValue) -> Seq<OverrideArg> {
    match v {
        PropertyValue::FillColor { r, g, b } => seq![
            OverrideArg::Scalar(r),
            OverrideArg::Scalar(g),
            OverrideArg::Scalar(b),
        ],
        PropertyValue::FillOpacity(opacity) => seq![OverrideArg::Scalar(opacity)],
        PropertyValue::StrokeColor { r, g, b } => seq![
            OverrideArg::Scalar(r),
            OverrideArg::Scalar(g),
            OverrideArg::Scalar(b),
        ],
        PropertyValue::StrokeOpacity(opacity) => seq![OverrideArg::Scalar(opacity)],
        PropertyValue::StrokeWidth(width) => seq![OverrideArg::Scalar(width)],
        PropertyValue::TransformAnchor(..) => seq![],
        PropertyValue::TransformPosition { x, y } => seq![
            OverrideArg::Coord(x),
            OverrideArg::Coord(y),
        ],
        PropertyValue::TransformScale { width, height } => seq![
            OverrideArg::Scalar(width),
            OverrideArg::Scalar(height),
        ],
        PropertyValue::TransformRotation(degrees) => seq![OverrideArg::Scalar(degrees)],
        PropertyValue::TransformOpacity(..) => seq![],
    }
}

/// Every supported variant resolves to between one and three numeric
/// arguments — one for a scalar, two for a pair, three for a color — so the
/// engine's override entry point is always called in one of exactly three
/// shapes.
pub proof fn lemma_override_args_len(v: PropertyValue)
    requires
        supported(v),
    ensures
        1 <= override_args(v).len() <= 3,
{
}

/// A fully resolved override, ready for the engine's override entry point:
/// the numeric tag, the boundary-safe keypath, and the ordered arguments.
#[derive(Clone, Debug)]
pub struct OverrideCommand {
    pub tag: u32,
    pub keypath: KeyPath,
    pub args: Vec<OverrideArg>,
}

/// Validated animation content together with the two names the engine wants
/// beside it, every one of them boundary-safe.
#[derive(Debug)]
pub struct AnimationSource {
    data: String,
    key: String,
    resource_path: String,
}

impl AnimationSource {
    /// The animation content.
    pub closed spec fn spec_data(&self) -> Seq<char> {
        self.data@
    }

    /// The instance name derived from or supplied with the content.
    pub closed spec fn spec_key(&self) -> Seq<char> {
        self.key@
    }

    /// The path the engine resolves relative assets against.
    pub closed spec fn spec_resource_path(&self) -> Seq<char> {
        self.resource_path@
    }

    /// The construction invariant: every string may cross the boundary.
    pub open spec fn wf(&self) -> bool {
        !contains_nul(self.spec_data()) && !contains_nul(self.spec_key()) && !contains_nul(
            self.spec_resource_path(),
        )
    }

    /// Borrows the animation content.
    pub fn data(&self) -> (r: &str)
        ensures
            r@ == self.spec_data(),
    {
        self.data.as_str()
    }

    /// Borrows the instance name.
    pub fn key(&self) -> (r: &str)
        ensures
            r@ == self.spec_key(),
    {
        self.key.as_str()
    }

    /// Borrows the resource path.
    pub fn resource_path(&self) -> (r: &str)
        ensures
            r@ == self.spec_resource_path(),
    {
        self.resource_path.as_str()
    }
}

/// One animation instance: the boundary-safe names it was created under and
/// the sequencing state of its render pipeline.
///
/// The engine-owned half of the instance — the opaque native reference — is
/// held by the embedding code, which creates it from an `AnimationSource`,
/// performs each command this type hands out, and releases it when the
/// handle is destroyed. Because a handle is created only by
/// `from_engine_result` and given up only by `destroy` (or by dropping it),
/// ownership of the native half follows this value: it can be released at
/// most once, and never used after.
#[derive(Debug)]
pub struct LottieAnimation {
    key: String,
    resource_path: String,
    async_pending: bool,
}

impl LottieAnimation {
    /// The instance name the animation was created under.
    pub closed spec fn spec_key(&self) -> Seq<char> {
        self.key@
    }

    /// The path the engine resolves relative assets against.
    pub closed spec fn spec_resource_path(&self) -> Seq<char> {
        self.resource_path@
    }

    /// True while an asynchronous render has been issued and not yet
    /// flushed.
    pub closed spec fn async_pending(&self) -> bool {
        self.async_pending
    }

    /// The handle invariant: both retained strings are boundary-safe.
    pub open spec fn wf(&self) -> bool {
        !contains_nul(self.spec_key()) && !contains_nul(self.spec_resource_path())
    }

    /// True while an asynchronous render has been issued and not yet
    /// flushed; the runtime view of `async_pending`.
    pub fn has_pending_render(&self) -> (r: bool)
        ensures
            r == self.async_pending(),
    {
        self.async_pending
    }

    /// Validates content, instance name and resource path for the engine's
    /// create-from-data entry point: fails exactly when one of the three
    /// holds an embedded terminator character, and otherwise yields the
    /// source the embedding code hands to the engine.
    pub fn from_data(data: String, key: &str, resource_path: &str) -> (r: Result<
        AnimationSource,
        Error,
    >)
        ensures
            r is Ok <==> (!contains_nul(data@) && !contains_nul(key@) && !contains_nul(
                resource_path@,
            )),
            r matches Ok(s) ==> s.wf() && s.spec_data() == data@ && s.spec_key() == key@
                && s.spec_resource_path() == resource_path@,
            r matches Err(e) ==> e matches Error::FFI(_),
    {
        if !is_boundary_safe(data.as_str()) {
            return Err(
                Error::FFI("animation data contains an embedded terminator byte".to_owned()),
            );
        }
        if !is_boundary_safe(key) {
            return Err(Error::FFI("key contains an embedded terminator byte".to_owned()));
        }
        if !is_boundary_safe(resource_path) {
            return Err(
                Error::FFI("resource path contains an embedded terminator byte".to_owned()),
            );
        }
        Ok(AnimationSource { data, key: key.to_owned(), resource_path: resource_path.to_owned() })
    }

    /// Settles the outcome of the engine's create call: `created` reports
    /// whether the engine returned a usable reference for `source`. On
    /// success the new handle retains the source's names and has no render
    /// in flight; a rejected source — the only way malformed content is
    /// reported — becomes an error.
    pub fn from_engine_result(source: AnimationSource, created: bool) -> (r: Result<
        LottieAnimation,
        Error,
    >)
        requires
            source.wf(),
        ensures
            created ==> (r matches Ok(a) && a.wf() && !a.async_pending() && a.spec_key()
                == source.spec_key() && a.spec_resource_path() == source.spec_resource_path()),
            !created ==> (r matches Err(e) && e matches Error::Animation(m) && m@
                == "could not instantiate animation"@),
    {
        if created {
            let AnimationSource { data: _, key, resource_path } = source;
            Ok(LottieAnimation { key, resource_path, async_pending: false })
        } else {
            Err(Error::Animation("could not instantiate animation".to_owned()))
        }
    }

    /// Resolves a property override into the engine's calling convention:
    /// the tag derived from the variant and the ordered numeric arguments —
    /// three channel values for a color, one value for a scalar, two for a
    /// pair. The unsupported anchor and opacity transforms are refused by
    /// precondition rather than mapped onto a neighbouring tag. The handle
    /// itself is unchanged: the mutation happens inside the engine, on every
    /// node `keypath` matches (none matching is a silent no-op, a policy the
    /// engine owns).
    pub fn set_prop(&mut self, keypath: KeyPath, prop: Property) -> (cmd: OverrideCommand)
        requires
            supported(prop.value()),
        ensures
            *final (self) == *old(self),
            cmd.tag == tag_of(prop.value()),
            cmd.keypath == keypath,
            cmd.args@ == override_args(prop.value()),
    {
        let tag = prop.ffi_type();
        let mut args: Vec<OverrideArg> = Vec::new();
        match *prop.val() {
            PropertyValue::FillColor { r, g, b } => {
                args.push(OverrideArg::Scalar(r));
                args.push(OverrideArg::Scalar(g));
                args.push(OverrideArg::Scalar(b));
            },
            PropertyValue::FillOpacity(opacity) => {
                args.push(OverrideArg::Scalar(opacity));
            },
            PropertyValue::StrokeColor { r, g, b } => {
                args.push(OverrideArg::Scalar(r));
                args.push(OverrideArg::Scalar(g));
                args.push(OverrideArg::Scalar(b));
            },
            PropertyValue::StrokeOpacity(opacity) => {
                args.push(OverrideArg::Scalar(opacity));
            },
            PropertyValue::StrokeWidth(width) => {
                args.push(OverrideArg::Scalar(width));
            },
            PropertyValue::TransformPosition { x, y } => {
                args.push(OverrideArg::Coord(x));
                args.push(OverrideArg::Coord(y));
            },
            PropertyValue::TransformScale { width, height } => {
                args.push(OverrideArg::Scalar(width));
                args.push(OverrideArg::Scalar(height));
            },
            PropertyValue::TransformRotation(degrees) => {
                args.push(OverrideArg::Scalar(degrees));
            },
            PropertyValue::TransformAnchor(..) => {
                proof {
                    assert(false);
                }
            },
            PropertyValue::TransformOpacity(..) => {
                proof {
                    assert(false);
                }
            },
        }
        proof {
            assert(args@ =~= override_args(prop.value()));
        }
        OverrideCommand { tag, keypath, args }
    }

    /// A synchronous render of frame `frame_num` into `buffer`, whose layout
    /// is `height` rows of `bytes_per_line` pixel units; the engine reads
    /// and writes only inside that extent, so the buffer must be at least
    /// that long — a caller contract, not a recoverable error. The
    /// rasterization itself runs in the engine, outside this crate, and
    /// blocks the caller until the frame is complete; no asynchronous render
    /// may be in flight beside it.
    pub fn render(
        &mut self,
        frame_num: usize,
        buffer: &mut [u32],
        width: usize,
        height: usize,
        bytes_per_line: usize,
    )
        requires
            !old(self).async_pending(),
            (height as int) * (bytes_per_line as int) <= old(buffer)@.len(),
        ensures
            *final (self) == *old(self),
            final (buffer)@.len() == old(buffer)@.len(),
            forall|i: int|
                (height as int) * (bytes_per_line as int) <= i < old(buffer)@.len()
                    ==> final (buffer)@[i] == old(buffer)@[i],
    {
    }

    /// Requests an asynchronous render of frame `frame_num` into `buffer`,
    /// under the same buffer contract as `render`, and returns once the
    /// request is handed to the engine. At most one asynchronous render may
    /// be in flight per handle: a second request before a flush is a
    /// caller-ordering violation and is rejected, leaving the handle and the
    /// first request untouched. Until the flush the buffer contents are the
    /// engine's to write; only its length is promised here.
    pub fn render_async(
        &mut self,
        frame_num: usize,
        buffer: &mut [u32],
        width: usize,
        height: usize,
        bytes_per_line: usize,
    ) -> (r: Result<(), Error>)
        requires
            (height as int) * (bytes_per_line as int) <= old(buffer)@.len(),
        ensures
            old(self).async_pending() ==> (r matches Err(e) && e matches Error::FFI(_)
                && *final (self) == *old(self)),
            !old(self).async_pending() ==> (r is Ok && final (self).async_pending()
                && final (self).spec_key() == old(self).spec_key()
                && final (self).spec_resource_path() == old(self).spec_resource_path()),
            final (buffer)@.len() == old(buffer)@.len(),
            forall|i: int|
                (height as int) * (bytes_per_line as int) <= i < old(buffer)@.len()
                    ==> final (buffer)@[i] == old(buffer)@[i],
    {
        if self.async_pending {
            return Err(Error::FFI("an asynchronous render is already in flight".to_owned()));
        }
        self.async_pending = true;
        Ok(())
    }

    /// Blocks until the most recently requested asynchronous render has
    /// completed; afterwards none is in flight, the buffer may be read or
    /// reused, and the next asynchronous render may be issued. Flushing with
    /// nothing in flight is harmless.
    pub fn render_flush(&mut self)
        ensures
            !final (self).async_pending(),
            final (self).spec_key() == old(self).spec_key(),
            final (self).spec_resource_path() == old(self).spec_resource_path(),
    {
        self.async_pending = false;
    }

    /// Gives the handle up, marking the point where the embedding code
    /// releases the engine-owned half of the instance. Taking the handle by
    /// value makes the release happen exactly once: the moved-out handle can
    /// never be rendered with, overridden, or destroyed again. No render may
    /// be in flight at this point; callers flush first.
    pub fn destroy(self)
        requires
            !self.async_pending(),
    {
    }
}

} // verus!
