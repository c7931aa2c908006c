use vstd::prelude::*;
use vstd::arithmetic::div_mod::lemma_fundamental_div_mod_converse;

verus! {

/// One slice's samples reordered from row-major to column-major: the byte
/// at output index `x*ys + y` is the input byte at `y*xs + x`.
pub open spec fn transposed(slice: Seq<u8>, xs: nat, ys: nat) -> Seq<u8> {
    Seq::new((xs * ys) as nat, |i: int| slice[(i % (ys as int)) * (xs as int) + i / (ys as int)])
}

/// The voxel bytes of the whole volume: every slice transposed, slices in
/// order along the depth axis.
pub open spec fn volume_bytes(slices: Seq<Seq<u8>>, xs: nat, ys: nat) -> Seq<u8>
    decreases slices.len(),
{
    if slices.len() == 0 {
        Seq::empty()
    } else {
        volume_bytes(slices.drop_last(), xs, ys) + transposed(slices.last(), xs, ys)
    }
}

/// The volume holds exactly `depth * width * height` bytes.
pub proof fn lemma_volume_len(slices: Seq<Seq<u8>>, xs: nat, ys: nat)
    ensures
        volume_bytes(slices, xs, ys).len() == slices.len() * (xs * ys),
    decreases slices.len(),
{
    if slices.len() == 0 {
    } else {
        lemma_volume_len(slices.drop_last(), xs, ys);
        assert((slices.len() - 1) * (xs * ys) + (xs * ys) == slices.len() * (xs * ys))
            by (nonlinear_arith);
    }
}

/// The indexing law of the volume: the byte at linear index
/// `z*(xs*ys) + x*ys + y` is slice `z`'s sample at row `y`, column `x`.
/// Together with the encoder's contract this pins where every input pixel
/// lands in the (uncompressed) output stream.
pub proof fn lemma_volume_indexing(slices: Seq<Seq<u8>>, xs: nat, ys: nat, x: int, y: int, z: int)
    requires
        forall|i: int| 0 <= i < slices.len() ==> (#[trigger] slices[i]).len() == xs * ys,
        0 <= x < xs,
        0 <= y < ys,
        0 <= z < slices.len(),
    ensures
        volume_bytes(slices, xs, ys)[z * ((xs * ys) as int) + x * (ys as int) + y] == slices[z][y
            * (xs as int) + x],
    decreases slices.len(),
{
    let pre = slices.drop_last();
    let idx = z * ((xs * ys) as int) + x * (ys as int) + y;
    lemma_volume_len(pre, xs, ys);
    assert(0 <= x * (ys as int) + y < xs * ys) by (nonlinear_arith)
        requires
            0 <= x < xs,
            0 <= y < ys,
    ;
    let vol_pre = volume_bytes(pre, xs, ys);
    if z == slices.len() - 1 {
        assert(z * ((xs * ys) as int) == vol_pre.len()) by (nonlinear_arith)
            requires
                vol_pre.len() == (slices.len() - 1) * ((xs * ys) as int),
                z == slices.len() - 1,
        ;
        assert(idx - vol_pre.len() == x * (ys as int) + y);
        let j = x * (ys as int) + y;
        lemma_fundamental_div_mod_converse(j, ys as int, x, y);
        assert(volume_bytes(slices, xs, ys)[idx] == transposed(slices.last(), xs, ys)[j]);
    } else {
        lemma_volume_indexing(pre, xs, ys, x, y, z);
        assert(idx < (slices.len() - 1) * ((xs * ys) as int)) by (nonlinear_arith)
            requires
                0 <= x < xs,
                0 <= y < ys,
                0 <= z < slices.len() - 1,
                idx == z * ((xs * ys) as int) + x * (ys as int) + y,
        ;
    }
}

/// Reorders one slice's samples into the reusable column-major buffer.
pub fn transpose_slice(data: &Vec<u8>, x_size: usize, y_size: usize, out: &mut Vec<u8>)
    requires
        data@.len() == x_size * y_size,
        old(out)@.len() == x_size * y_size,
    ensures
        final(out)@ == transposed(data@, x_size as nat, y_size as nat),
        final(out)@.len() == old(out)@.len(),
{
    proof {
        vstd::std_specs::vec::axiom_spec_len(data);
    }
    let ghost target = transposed(data@, x_size as nat, y_size as nat);
    let mut x: usize = 0;
    while x < x_size
        invariant
            data@.len() == x_size * y_size,
            data@.len() <= usize::MAX,
            out@.len() == x_size * y_size,
            x <= x_size,
            target == transposed(data@, x_size as nat, y_size as nat),
            forall|i: int| 0 <= i < x * y_size ==> out@[i] == target[i],
        decreases x_size - x,
    {
        let mut y: usize = 0;
        while y < y_size
            invariant
                data@.len() == x_size * y_size,
                data@.len() <= usize::MAX,
                out@.len() == x_size * y_size,
                x < x_size,
                y <= y_size,
                target == transposed(data@, x_size as nat, y_size as nat),
                forall|i: int| 0 <= i < x * y_size + y ==> out@[i] == target[i],
            decreases y_size - y,
        {
            proof {
                assert(y * x_size + x < x_size * y_size && x * y_size + y < x_size * y_size)
                    by (nonlinear_arith)
                    requires
                        0 <= x < x_size,
                        0 <= y < y_size,
                ;
                lemma_fundamental_div_mod_converse(
                    x * (y_size as int) + y,
                    y_size as int,
                    x as int,
                    y as int,
                );
            }
            let src = y * x_size + x;
            let dst = x * y_size + y;
            let b = data[src];
            out.set(dst, b);
            y += 1;
        }
        proof {
            assert((x + 1) * y_size == x * y_size + y_size) by (nonlinear_arith);
        }
        x += 1;
    }
    proof {
        assert(x * y_size == x_size * y_size);
        assert(out@ =~= target);
    }
}

} // verus!
