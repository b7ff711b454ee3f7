use vstd::prelude::*;

verus! {

/// Triangle indices of a rectangle with square corners: two triangles for
/// each of its four quads.
pub fn sharp_indices() -> (r: Vec<u16>)
    ensures
        r@ == seq![
            0u16, 1, 2, 2, 1, 3,
            4, 5, 6, 6, 5, 7,
            8, 9, 10, 10, 9, 11,
            12, 13, 14, 14, 13, 15,
        ],
{
    vec![
        0, 1, 2, 2, 1, 3,
        4, 5, 6, 6, 5, 7,
        8, 9, 10, 10, 9, 11,
        12, 13, 14, 14, 13, 15,
    ]
}

/// The twelve indices of the triangles that round the corner whose vertices
/// start at `start`.
pub open spec fn corner_indices(start: u16) -> Seq<u16> {
    seq![
        start, (start + 1) as u16, (start + 4) as u16,
        start, (start + 4) as u16, (start + 2) as u16,
        (start + 4) as u16, (start + 1) as u16, (start + 5) as u16,
        (start + 5) as u16, (start + 1) as u16, (start + 3) as u16,
    ]
}

fn push_corner(inds: &mut Vec<u16>, start: u16)
    requires
        start <= 0xfff0,
    ensures
        final(inds)@ == old(inds)@ + corner_indices(start),
{
    let ghost before = inds@;
    inds.push(start);
    inds.push(start + 1);
    inds.push(start + 4);
    inds.push(start);
    inds.push(start + 4);
    inds.push(start + 2);
    inds.push(start + 4);
    inds.push(start + 1);
    inds.push(start + 5);
    inds.push(start + 5);
    inds.push(start + 1);
    inds.push(start + 3);
    assert(inds@ =~= before + corner_indices(start));
}

/// Triangle indices of a rectangle with round corners: two triangles for
/// each of its four quads, then the triangles of each corner.
pub fn round_indices() -> (r: Vec<u16>)
    ensures
        r@ == seq![
            0u16, 1, 2, 0, 2, 3,
            4, 5, 6, 4, 6, 7,
            8, 9, 10, 8, 10, 11,
            12, 13, 14, 12, 14, 15,
        ] + corner_indices(16) + corner_indices(22) + corner_indices(28) + corner_indices(34),
{
    let mut inds: Vec<u16> = vec![
        0, 1, 2, 0, 2, 3,
        4, 5, 6, 4, 6, 7,
        8, 9, 10, 8, 10, 11,
        12, 13, 14, 12, 14, 15,
    ];
    push_corner(&mut inds, 16);
    push_corner(&mut inds, 22);
    push_corner(&mut inds, 28);
    push_corner(&mut inds, 34);
    inds
}

} // verus!
