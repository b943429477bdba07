use vstd::prelude::*;
use crate::color::{
    format_supported, image_from_buffer, spec_bytes_per_pixel, spec_native_pixel, Image,
    ImageFormat,
};
use crate::error::Error;
use crate::native::{
    affine_identity, affine_mul, affine_product, affine_to_transform, dt_fill, dt_filled,
    dt_pixels, dt_set_transform, dt_stroke, dt_stroked, dt_transform, id_affine, native_of,
    solid_of, solid_source, source_ok,
};
use crate::path::{build_path, PathElement};
use crate::style::FillRule;

verus! {

/// The drawing state of one nesting level: its coordinate transform.
#[derive(Clone, Copy)]
struct CtxState {
    transform: kurbo::Affine,
}

/// The render context: a stack of per-scope transforms over a borrowed
/// drawing surface.
///
/// The stack holds one entry per open scope and is never empty while the
/// context is open; `finish` pops the root entry and closes the context
/// for good. Operations that write to the surface take the surface as an
/// explicit `&mut` argument; the topmost entry's transform is the one
/// last pushed to the surface's transform register.
pub struct RaqoteRenderContext {
    ctx_stack: Vec<CtxState>,
}

/// The model of a `save`: the stack with a copy of its top pushed.
pub open spec fn saved_stack(s: Seq<kurbo::Affine>) -> Seq<kurbo::Affine> {
    s.push(s.last())
}

/// The model of a successful `restore`: the stack with its top popped.
pub open spec fn restored_stack(s: Seq<kurbo::Affine>) -> Seq<kurbo::Affine> {
    s.drop_last()
}

/// The model of a `transform(m)`: the top entry replaced by its
/// composition with `m`.
pub open spec fn transformed_stack(s: Seq<kurbo::Affine>, m: kurbo::Affine) -> Seq<kurbo::Affine> {
    s.update(s.len() - 1, affine_product(s.last(), m))
}

impl RaqoteRenderContext {
    /// The transforms of the open scopes, root first.
    pub closed spec fn stack(&self) -> Seq<kurbo::Affine> {
        self.ctx_stack@.map(|i: int, s: CtxState| s.transform)
    }

    /// An open context has at least the root scope on its stack.
    pub open spec fn is_open(&self) -> bool {
        self.stack().len() >= 1
    }

    /// A fresh context: one root scope carrying the identity transform.
    pub fn new() -> (r: RaqoteRenderContext)
        ensures
            r.stack().len() == 1,
            r.stack().last() == id_affine(()),
    {
        let mut ctx_stack: Vec<CtxState> = Vec::new();
        ctx_stack.push(CtxState { transform: affine_identity() });
        RaqoteRenderContext { ctx_stack }
    }

    /// The number of open scopes.
    pub fn depth(&self) -> (n: usize)
        ensures
            n == self.stack().len(),
    {
        self.ctx_stack.len()
    }

    /// The transform of the innermost open scope.
    pub fn current_transform(&self) -> (r: kurbo::Affine)
        requires
            self.is_open(),
        ensures
            r == self.stack().last(),
    {
        self.ctx_stack[self.ctx_stack.len() - 1].transform
    }

    fn pop_state(&mut self)
        requires
            old(self).is_open(),
        ensures
            final(self).stack() == restored_stack(old(self).stack()),
    {
        self.ctx_stack.pop();
        proof {
            assert(self.stack() =~= restored_stack(old(self).stack()));
        }
    }

    /// This backend never enters an asynchronous error state.
    pub fn status(&mut self) -> (r: Result<(), Error>)
        ensures
            r == Ok::<(), Error>(()),
            *final(self) == *old(self),
    {
        Ok(())
    }

    /// Push a new scope that starts with the current transform.
    /// Always succeeds.
    pub fn save(&mut self) -> (r: Result<(), Error>)
        requires
            old(self).is_open(),
        ensures
            r == Ok::<(), Error>(()),
            final(self).stack() == saved_stack(old(self).stack()),
    {
        let new_state = CtxState { transform: self.current_transform() };
        self.ctx_stack.push(new_state);
        proof {
            assert(self.stack() =~= saved_stack(old(self).stack()));
        }
        Ok(())
    }

    /// Pop the innermost scope and push the enclosing scope's transform
    /// back to the surface's transform register. Fails with
    /// `StackImbalance`, changing nothing, when only the root scope is
    /// open (or the context is closed).
    pub fn restore(&mut self, dt: &mut raqote::DrawTarget) -> (r: Result<(), Error>)
        ensures
            old(self).stack().len() >= 2 ==> r == Ok::<(), Error>(()) && final(self).stack()
                == restored_stack(old(self).stack()) && dt_transform(*final(dt)) == native_of(
                final(self).stack().last()) && dt_pixels(*final(dt)) == dt_pixels(*old(dt)),
            old(self).stack().len() < 2 ==> r == Err::<(), Error>(Error::StackImbalance)
                && *final(self) == *old(self) && *final(dt) == *old(dt),
    {
        if self.ctx_stack.len() <= 1 {
            return Err(Error::StackImbalance);
        }
        self.pop_state();
        let t = self.current_transform();
        let nt = affine_to_transform(&t);
        dt_set_transform(dt, &nt);
        Ok(())
    }

    /// Close the context. Succeeds exactly when every `save` has been
    /// matched by a `restore`, leaving only the root scope; the stack is
    /// then empty and the context accepts no further scoped operations.
    /// Fails with `StackImbalance`, changing nothing, otherwise.
    pub fn finish(&mut self) -> (r: Result<(), Error>)
        ensures
            old(self).stack().len() == 1 ==> r == Ok::<(), Error>(()) && final(self).stack().len()
                == 0,
            old(self).stack().len() != 1 ==> r == Err::<(), Error>(Error::StackImbalance)
                && *final(self) == *old(self),
    {
        if self.ctx_stack.len() != 1 {
            return Err(Error::StackImbalance);
        }
        self.pop_state();
        Ok(())
    }

    /// Compose the innermost scope's transform with `m` in the current
    /// local frame and push the result to the surface's transform
    /// register. Always succeeds; the stack depth does not change.
    pub fn transform(&mut self, dt: &mut raqote::DrawTarget, m: kurbo::Affine)
        requires
            old(self).is_open(),
        ensures
            final(self).stack() == transformed_stack(old(self).stack(), m),
            dt_transform(*final(dt)) == native_of(final(self).stack().last()),
            dt_pixels(*final(dt)) == dt_pixels(*old(dt)),
    {
        let top = self.current_transform();
        let composed = affine_mul(&top, &m);
        let idx = self.ctx_stack.len() - 1;
        self.ctx_stack[idx] = CtxState { transform: composed };
        proof {
            assert(self.stack() =~= transformed_stack(old(self).stack(), m));
        }
        let t = self.current_transform();
        let nt = affine_to_transform(&t);
        dt_set_transform(dt, &nt);
    }

    /// A solid paint source of the given packed RGBA color: the four
    /// channel bytes, red first, handed to the rasterizer. Always
    /// succeeds.
    pub fn solid_brush(&mut self, rgba: u32) -> (r: Result<raqote::Source<'static>, Error>)
        ensures
            *final(self) == *old(self),
            match r {
                Ok(s) => s == solid_of(
                    (rgba >> 24) as u8,
                    ((rgba >> 16) & 255) as u8,
                    ((rgba >> 8) & 255) as u8,
                    (rgba & 255) as u8,
                ) && source_ok(s),
                Err(_) => false,
            },
    {
        let (cr, cg, cb, ca) = crate::color::split_rgba(rgba);
        Ok(solid_source(cr, cg, cb, ca))
    }

    /// Fill the path given by `els` with the brush under the given
    /// winding rule: the surface ends exactly at the rasterizer's fill
    /// of those commands, that rule and that brush, with the transform
    /// register left as it was. The brush must be one the rasterizer can
    /// sample, as every brush this library constructs is.
    pub fn fill(
        &mut self,
        dt: &mut raqote::DrawTarget,
        els: &Vec<PathElement>,
        brush: &raqote::Source,
        fill_rule: FillRule,
    )
        requires
            source_ok(*brush),
        ensures
            *final(self) == *old(self),
            *final(dt) == dt_filled(*old(dt), els@, fill_rule, *brush),
            dt_transform(*final(dt)) == dt_transform(*old(dt)),
    {
        let path = build_path(els, fill_rule);
        dt_fill(dt, &path, brush);
    }

    /// Stroke the path given by `els` with the brush and the fully
    /// resolved stroke style: the surface ends exactly at the
    /// rasterizer's stroke of those commands with that style and that
    /// brush, with the transform register left as it was. The brush must
    /// be one the rasterizer can sample, as every brush this library
    /// constructs is.
    pub fn stroke(
        &mut self,
        dt: &mut raqote::DrawTarget,
        els: &Vec<PathElement>,
        brush: &raqote::Source,
        style: &raqote::StrokeStyle,
    )
        requires
            source_ok(*brush),
        ensures
            *final(self) == *old(self),
            *final(dt) == dt_stroked(*old(dt), els@, *style, *brush),
            dt_transform(*final(dt)) == dt_transform(*old(dt)),
    {
        let path = build_path(els, FillRule::NonZero);
        dt_stroke(dt, &path, style, brush);
    }

    /// Clipping is not implemented by this backend: the call changes
    /// nothing, and reports the gap by returning `false`, so callers and
    /// tests can detect it.
    pub fn clip(&mut self, _els: &Vec<PathElement>, _rule: FillRule) -> (r: bool)
        ensures
            *final(self) == *old(self),
            r == false,
    {
        false
    }

    /// Convert a raw pixel buffer into an owned image in the
    /// rasterizer's native premultiplied layout. Fails with
    /// `UnsupportedFormat`, producing no image, on an unrecognized
    /// format.
    pub fn make_image(
        &mut self,
        width: usize,
        height: usize,
        buf: &[u8],
        format: ImageFormat,
    ) -> (r: Result<Image, Error>)
        requires
            format_supported(format) ==> buf@.len() == width * height * spec_bytes_per_pixel(
                format,
            ),
        ensures
            *final(self) == *old(self),
            !format_supported(format) ==> r == Err::<Image, Error>(Error::UnsupportedFormat),
            format_supported(format) ==> match r {
                Ok(img) => img.width == width && img.height == height && img.pixels@.len() == width
                    * height && (forall|i: int|
                    0 <= i < width * height ==> img.pixels@[i] == spec_native_pixel(
                        format,
                        buf@,
                        i,
                    )),
                Err(_) => false,
            },
    {
        image_from_buffer(width, height, buf, format)
    }
}

/// How often a stack shape recurs: `n` saves applied in a row.
pub open spec fn saved_n(s: Seq<kurbo::Affine>, n: nat) -> Seq<kurbo::Affine>
    decreases n,
{
    if n == 0 {
        s
    } else {
        saved_stack(saved_n(s, (n - 1) as nat))
    }
}

/// `n` restores applied in a row.
pub open spec fn restored_n(s: Seq<kurbo::Affine>, n: nat) -> Seq<kurbo::Affine>
    decreases n,
{
    if n == 0 {
        s
    } else {
        restored_n(restored_stack(s), (n - 1) as nat)
    }
}

proof fn lemma_saved_n_len(s: Seq<kurbo::Affine>, n: nat)
    ensures
        saved_n(s, n).len() == s.len() + n,
    decreases n,
{
    if n > 0 {
        lemma_saved_n_len(s, (n - 1) as nat);
    }
}

/// Stack balance: any number of `save`s followed by an equal number of
/// `restore`s gives the stack back exactly as it was. In particular,
/// starting from the root scope alone, `finish` succeeds afterwards,
/// while each of the restores acted on a stack of depth at least two and
/// so none of them failed.
pub proof fn lemma_stack_balance(s: Seq<kurbo::Affine>, n: nat)
    requires
        s.len() >= 1,
    ensures
        restored_n(saved_n(s, n), n) == s,
        saved_n(s, n).len() == s.len() + n,
    decreases n,
{
    lemma_saved_n_len(s, n);
    if n > 0 {
        let x = saved_n(s, (n - 1) as nat);
        lemma_saved_n_len(s, (n - 1) as nat);
        assert(restored_stack(saved_stack(x)) =~= x);
        lemma_stack_balance(s, (n - 1) as nat);
    }
}

/// Transform composition: after a `save` and two `transform` calls with
/// `m1` then `m2`, the effective transform is the pre-save transform
/// composed with `m1` and then `m2`, and a `restore` brings the stack
/// back exactly to its pre-save value.
pub proof fn lemma_transform_composition(s: Seq<kurbo::Affine>, m1: kurbo::Affine, m2: kurbo::Affine)
    requires
        s.len() >= 1,
    ensures
        transformed_stack(transformed_stack(saved_stack(s), m1), m2).last() == affine_product(
            affine_product(s.last(), m1),
            m2,
        ),
        restored_stack(transformed_stack(transformed_stack(saved_stack(s), m1), m2)) == s,
{
    let s1 = saved_stack(s);
    let t1 = transformed_stack(s1, m1);
    let t2 = transformed_stack(t1, m2);
    assert(t1.last() == affine_product(s.last(), m1));
    assert(t2.last() == affine_product(affine_product(s.last(), m1), m2));
    assert(restored_stack(t2) =~= s);
}

} // verus!
