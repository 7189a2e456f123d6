//! Numbered snapshots of files: which stored versions belong to a file and the number and id
//! of the next one.
use vstd::prelude::*;

use crate::schema::FileVersion;
use crate::text::{chars_of, decimal, push_decimal};

verus! {

/// The key prefix under which a file's versions are stored: its id and `/`.
pub open spec fn version_prefix(file_id: Seq<char>) -> Seq<char> {
    file_id + "/"@
}

/// The id of a file's version with the given number.
pub open spec fn version_id(file_id: Seq<char>, number: nat) -> Seq<char> {
    file_id + "/v"@ + decimal(number)
}

/// Whether a stored key belongs to a version of the file.
pub fn is_version_key(key: &str, file_id: &str) -> (r: bool)
    ensures
        r == version_prefix(file_id@).is_prefix_of(key@),
{
    let k = chars_of(key);
    let f = chars_of(file_id);
    let n = f.len();
    proof {
        reveal_strlit("/");
        assert(version_prefix(file_id@).len() == n + 1);
    }
    if k.len() <= n {
        assert(!version_prefix(file_id@).is_prefix_of(key@));
        return false;
    }
    let mut i: usize = 0;
    while i < n
        invariant
            n == f@.len(),
            f@ == file_id@,
            k@ == key@,
            n + 1 <= k@.len(),
            i <= n,
            forall|j: int| 0 <= j < i ==> k@[j] == f@[j],
        decreases n - i,
    {
        if k[i] != f[i] {
            assert(version_prefix(file_id@)[i as int] == f@[i as int]);
            return false;
        }
        i = i + 1;
    }
    proof {
        reveal_strlit("/");
        assert(version_prefix(file_id@)[n as int] == '/');
    }
    if k[n] != '/' {
        return false;
    }
    assert(version_prefix(file_id@) =~= k@.take(n + 1));
    true
}

/// The largest number among the versions (0 when there are none).
pub open spec fn max_number(numbers: Seq<u32>) -> nat
    decreases numbers.len(),
{
    if numbers.len() == 0 {
        0
    } else {
        let m = max_number(numbers.drop_last());
        if numbers.last() as nat > m {
            numbers.last() as nat
        } else {
            m
        }
    }
}

proof fn max_number_bounds(numbers: Seq<u32>)
    ensures
        forall|i: int| 0 <= i < numbers.len() ==> (#[trigger] numbers[i]) as nat <= max_number(numbers),
        numbers.len() > 0 ==> exists|i: int| 0 <= i < numbers.len() && numbers[i] as nat == max_number(numbers),
        max_number(numbers) <= u32::MAX,
    decreases numbers.len(),
{
    if numbers.len() > 0 {
        max_number_bounds(numbers.drop_last());
        assert forall|i: int| 0 <= i < numbers.len() implies (#[trigger] numbers[i]) as nat <= max_number(numbers) by {
            if i < numbers.len() - 1 {
                assert(numbers[i] == numbers.drop_last()[i]);
            }
        }
        let last = numbers.len() - 1;
        if numbers[last] as nat == max_number(numbers) {
        } else {
            assert(numbers.drop_last().len() > 0);
            let j = choose|j: int| 0 <= j < numbers.drop_last().len() && numbers.drop_last()[j] as nat == max_number(
                numbers.drop_last(),
            );
            assert(numbers[j] == numbers.drop_last()[j]);
        }
    }
}

/// The number of the next version: one more than the largest existing number. The largest
/// number must be below `u32::MAX`.
pub fn next_version_number(existing: &Vec<u32>) -> (r: u32)
    requires
        max_number(existing@) < u32::MAX,
    ensures
        r == max_number(existing@) + 1,
        forall|i: int| 0 <= i < existing@.len() ==> existing@[i] < r,
{
    let mut m: u32 = 0;
    assert(existing@.take(0) =~= Seq::<u32>::empty());
    for i in 0..existing.len()
        invariant
            m as nat == max_number(existing@.take(i as int)),
    {
        assert(existing@.take(i + 1).drop_last() =~= existing@.take(i as int));
        if existing[i] > m {
            m = existing[i];
        }
    }
    assert(existing@.take(existing@.len() as int) =~= existing@);
    proof {
        max_number_bounds(existing@);
    }
    m + 1
}

/// The next version of a file: numbered one above its largest existing version.
pub fn new_version(
    file_id: &str,
    existing: &Vec<u32>,
    hash_blake3: Option<String>,
    size_bytes: u64,
    snapshot_data: Option<String>,
    now: String,
) -> (r: FileVersion)
    requires
        max_number(existing@) < u32::MAX,
    ensures
        r.version_number == max_number(existing@) + 1,
        r.id@ == version_id(file_id@, r.version_number as nat),
        r.file_id@ == file_id@,
        r.hash_blake3 == hash_blake3,
        r.size_bytes == size_bytes,
        r.snapshot_data == snapshot_data,
        r.created_at == now,
{
    let n = next_version_number(existing);
    let mut id = String::from_str(file_id);
    id.append("/v");
    push_decimal(&mut id, n as u64);
    FileVersion {
        id,
        file_id: String::from_str(file_id),
        version_number: n,
        hash_blake3,
        size_bytes,
        snapshot_data,
        created_at: now,
    }
}

/// A new version's number is above every existing version's number, so it names a version
/// that did not exist.
pub proof fn new_version_is_newest(existing: Seq<u32>, i: int)
    requires
        0 <= i < existing.len(),
    ensures
        existing[i] < max_number(existing) + 1,
{
    max_number_bounds(existing);
}

} // verus!
