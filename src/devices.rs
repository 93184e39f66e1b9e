use vstd::prelude::*;

verus! {

/// Positions, in order, among the first `n` public ids, of those that differ
/// from `local`.
pub open spec fn remote_positions(ids: Seq<Seq<u8>>, local: Seq<u8>, n: int) -> Seq<usize>
    decreases n,
{
    if n <= 0 {
        Seq::empty()
    } else if ids[n - 1] != local {
        remote_positions(ids, local, n - 1).push((n - 1) as usize)
    } else {
        remote_positions(ids, local, n - 1)
    }
}

/// The public ids as plain byte strings.
pub open spec fn id_views(ids: Seq<Vec<u8>>) -> Seq<Seq<u8>> {
    ids.map_values(|v: Vec<u8>| v@)
}

fn bytes_equal(a: &[u8], b: &[u8]) -> (r: bool)
    ensures
        r == (a@ == b@),
{
    if a.len() != b.len() {
        return false;
    }
    let mut i: usize = 0;
    while i < a.len()
        invariant
            a@.len() == b@.len(),
            i <= a@.len(),
            forall|k: int| 0 <= k < i ==> a@[k] == b@[k],
        decreases a@.len() - i,
    {
        if a[i] != b[i] {
            return false;
        }
        i = i + 1;
    }
    assert(a@ =~= b@);
    true
}

/// Positions, in order, of the devices in a listing whose public id is not
/// the local device's: the listing without the local device.
pub fn remote_device_positions(pub_ids: &Vec<Vec<u8>>, local_pub_id: &Vec<u8>) -> (r: Vec<usize>)
    ensures
        r@ == remote_positions(id_views(pub_ids@), local_pub_id@, pub_ids@.len() as int),
{
    let mut r: Vec<usize> = Vec::new();
    let mut i: usize = 0;
    while i < pub_ids.len()
        invariant
            i <= pub_ids@.len(),
            r@ == remote_positions(id_views(pub_ids@), local_pub_id@, i as int),
        decreases pub_ids@.len() - i,
    {
        if !bytes_equal(pub_ids[i].as_slice(), local_pub_id.as_slice()) {
            r.push(i);
        }
        i = i + 1;
    }
    r
}

} // verus!
