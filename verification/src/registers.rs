use vstd::prelude::*;

verus! {

/// Who may access a register.
#[derive(Debug, Clone, Copy, PartialEq, Eq, Structural)]
pub enum AccessType {
    ReadOnly,
    WriteOnly,
    ReadWrite,
}

/// An entry of a register map: the register `name` occupies `byte_size` words from word
/// `address` of the map's byte storage.
#[derive(Debug, Clone, Copy)]
pub struct Register<T> {
    pub name: T,
    pub address: usize,
    pub byte_size: u8,
    pub access_type: AccessType,
}

/// First byte of the register in the storage.
pub open spec fn reg_start<T>(r: Register<T>, word_size: int) -> int {
    r.address * word_size
}

/// Number of bytes of the register in the storage.
pub open spec fn reg_len<T>(r: Register<T>, word_size: int) -> int {
    r.byte_size * word_size
}

/// Every register of the map lies inside a storage of `len` bytes.
pub open spec fn map_fits<T>(map: Seq<Register<T>>, word_size: int, len: int) -> bool {
    &&& word_size >= 0
    &&& forall|i: int|
        0 <= i < map.len() ==> reg_start(#[trigger] map[i], word_size) + reg_len(map[i], word_size)
            <= len
}

proof fn lemma_reg_bounds<T>(r: Register<T>, word_size: int, len: int)
    requires
        word_size >= 0,
        reg_start(r, word_size) + reg_len(r, word_size) <= len,
    ensures
        0 <= reg_start(r, word_size),
        0 <= reg_len(r, word_size),
{
    assert(0 <= r.address * word_size) by (nonlinear_arith)
        requires
            word_size >= 0,
    ;
    assert(0 <= r.byte_size * word_size) by (nonlinear_arith)
        requires
            word_size >= 0,
    ;
}

/// Size in words of register `index` of the map.
pub fn register_get_size<T>(map: &[Register<T>], index: usize) -> (r: usize)
    requires
        index < map@.len(),
    ensures
        r == map@[index as int].byte_size,
{
    map[index].byte_size as usize
}

/// The bytes of register `index`, copied to the start of `buffer`; a write-only
/// register or a buffer shorter than the register is refused.
pub fn register_read_by_name<T>(
    map: &[Register<T>],
    index: usize,
    word_size: usize,
    storage: &[u8],
    buffer: &mut [u8],
) -> (res: Result<usize, ()>)
    requires
        index < map@.len(),
        storage@.len() <= isize::MAX,
        map_fits(map@, word_size as int, storage@.len() as int),
    ensures
        ({
            let r = map@[index as int];
            let start = reg_start(r, word_size as int);
            let n = reg_len(r, word_size as int);
            &&& (r.access_type == AccessType::WriteOnly || old(buffer)@.len() < n) ==> res is Err
                && final(buffer)@ == old(buffer)@
            &&& !(r.access_type == AccessType::WriteOnly || old(buffer)@.len() < n) ==> res
                == Ok::<usize, ()>(n as usize) && final(buffer)@ == storage@.subrange(
                start,
                start + n,
            ) + old(buffer)@.subrange(n, old(buffer)@.len() as int)
        }),
{
    let reg = &map[index];
    let ghost r = map@[index as int];
    proof {
        assert(reg_start(map@[index as int], word_size as int) + reg_len(
            map@[index as int],
            word_size as int,
        ) <= storage@.len());
        lemma_reg_bounds(r, word_size as int, storage@.len() as int);
    }
    if reg.access_type == AccessType::WriteOnly {
        return Err(());
    }
    let start = reg.address * word_size;
    let n = reg.byte_size as usize * word_size;
    if buffer.len() < n {
        return Err(());
    }
    let ghost b0 = buffer@;
    let mut i: usize = 0;
    while i < n
        invariant
            i <= n,
            n <= buffer@.len(),
            start + n <= storage@.len(),
            storage@.len() <= isize::MAX,
            buffer@.len() == b0.len(),
            forall|k: int| 0 <= k < i ==> buffer@[k] == storage@[start + k],
            forall|k: int| i <= k < b0.len() ==> buffer@[k] == b0[k],
        decreases n - i,
    {
        buffer[i] = storage[start + i];
        i = i + 1;
    }
    assert(buffer@ =~= storage@.subrange(start as int, start + n) + b0.subrange(
        n as int,
        b0.len() as int,
    ));
    Ok(n)
}

/// Writes `value` into register `index`; a read-only register or a value that is not
/// exactly the register's size is refused.
pub fn register_write_by_name<T>(
    map: &[Register<T>],
    index: usize,
    word_size: usize,
    storage: &mut [u8],
    value: &[u8],
) -> (res: Result<(), ()>)
    requires
        index < map@.len(),
        old(storage)@.len() <= isize::MAX,
        map_fits(map@, word_size as int, old(storage)@.len() as int),
    ensures
        ({
            let r = map@[index as int];
            let start = reg_start(r, word_size as int);
            let n = reg_len(r, word_size as int);
            &&& (r.access_type == AccessType::ReadOnly || value@.len() != n) ==> res is Err
                && final(storage)@ == old(storage)@
            &&& !(r.access_type == AccessType::ReadOnly || value@.len() != n) ==> res is Ok
                && final(storage)@ == old(storage)@.subrange(0, start) + value@ + old(
                storage,
            )@.subrange(start + n, old(storage)@.len() as int)
        }),
{
    let reg = &map[index];
    let ghost r = map@[index as int];
    proof {
        assert(reg_start(map@[index as int], word_size as int) + reg_len(
            map@[index as int],
            word_size as int,
        ) <= storage@.len());
        lemma_reg_bounds(r, word_size as int, storage@.len() as int);
    }
    let n = reg.byte_size as usize * word_size;
    if reg.access_type == AccessType::ReadOnly || value.len() != n {
        return Err(());
    }
    let start = reg.address * word_size;
    let ghost s0 = storage@;
    let mut i: usize = 0;
    while i < n
        invariant
            i <= n,
            n == value@.len(),
            start + n <= s0.len(),
            s0.len() <= isize::MAX,
            storage@.len() == s0.len(),
            forall|k: int| 0 <= k < start ==> storage@[k] == s0[k],
            forall|k: int| 0 <= k < i ==> storage@[start + k] == value@[k],
            forall|k: int| start + i <= k < s0.len() ==> storage@[k] == s0[k],
        decreases n - i,
    {
        storage[start + i] = value[i];
        i = i + 1;
    }
    assert(storage@ =~= s0.subrange(0, start as int) + value@ + s0.subrange(
        start + n,
        s0.len() as int,
    ));
    Ok(())
}

/// What a read by name gives back is what the last accepted write by name wrote.
pub proof fn law_read_after_write<T>(
    map: Seq<Register<T>>,
    index: int,
    word_size: int,
    storage: Seq<u8>,
    value: Seq<u8>,
)
    requires
        0 <= index < map.len(),
        map_fits(map, word_size, storage.len() as int),
        value.len() == reg_len(map[index], word_size),
    ensures
        ({
            let r = map[index];
            let start = reg_start(r, word_size);
            let n = reg_len(r, word_size);
            let written = storage.subrange(0, start) + value + storage.subrange(
                start + n,
                storage.len() as int,
            );
            written.subrange(start, start + n) == value
        }),
{
    let r = map[index];
    assert(reg_start(map[index], word_size) + reg_len(map[index], word_size) <= storage.len());
    lemma_reg_bounds(r, word_size, storage.len() as int);
    let start = reg_start(r, word_size);
    let n = reg_len(r, word_size);
    let written = storage.subrange(0, start) + value + storage.subrange(
        start + n,
        storage.len() as int,
    );
    assert(written.subrange(start, start + n) =~= value);
}

/// The first register, from position `from` on, whose words `start .. start + word_count`
/// hold `address .. address + word_count` (words counted in bytes of `word_size`).
pub open spec fn first_read_match<T>(
    map: Seq<Register<T>>,
    from: int,
    word_size: int,
    address: int,
    word_count: int,
) -> Option<int>
    decreases map.len() - from,
{
    if from < 0 || from >= map.len() {
        None
    } else {
        let start = reg_start(map[from], word_size);
        let end = start + word_count * word_size;
        if address >= start && address < end && address + word_count * word_size <= end {
            Some(from)
        } else {
            first_read_match(map, from + 1, word_size, address, word_count)
        }
    }
}

/// Copies `word_count` words starting at byte `address` into `buffer`, provided they
/// start a register; otherwise the read is refused.
pub fn register_read_by_address<T>(
    map: &[Register<T>],
    word_size: usize,
    storage: &[u8],
    address: usize,
    word_count: usize,
    buffer: &mut [u8],
) -> (res: Result<(), ()>)
    requires
        storage@.len() <= isize::MAX,
        map_fits(map@, word_size as int, storage@.len() as int),
        address + word_count * word_size <= storage@.len(),
        word_count * word_size <= old(buffer)@.len(),
    ensures
        first_read_match(map@, 0, word_size as int, address as int, word_count as int) is None
            ==> res is Err && final(buffer)@ == old(buffer)@,
        first_read_match(map@, 0, word_size as int, address as int, word_count as int) is Some
            ==> res is Ok && final(buffer)@ == storage@.subrange(
            address as int,
            address + word_count * word_size,
        ) + old(buffer)@.subrange(word_count * word_size, old(buffer)@.len() as int),
{
    let n = word_count * word_size;
    let end_address = address + n;
    let mut j: usize = 0;
    while j < map.len()
        invariant
            j <= map@.len(),
            n == word_count * word_size,
            end_address == address + n,
            end_address <= storage@.len(),
            storage@.len() <= isize::MAX,
            n <= buffer@.len(),
            buffer@ == old(buffer)@,
            map_fits(map@, word_size as int, storage@.len() as int),
            first_read_match(map@, 0, word_size as int, address as int, word_count as int)
                == first_read_match(map@, j as int, word_size as int, address as int, word_count as int),
        decreases map@.len() - j,
    {
        let reg = &map[j];
        proof {
            assert(reg_start(map@[j as int], word_size as int) + reg_len(
                map@[j as int],
                word_size as int,
            ) <= storage@.len());
            lemma_reg_bounds(map@[j as int], word_size as int, storage@.len() as int);
        }
        let start = reg.address * word_size;
        if address >= start && address < start + n && end_address <= start + n {
            let ghost b0 = buffer@;
            let mut i: usize = 0;
            while i < n
                invariant
                    i <= n,
                    address == start,
                    end_address == address + n,
                    end_address <= storage@.len(),
                    n <= b0.len(),
                    buffer@.len() == b0.len(),
                    forall|k: int| 0 <= k < i ==> buffer@[k] == storage@[start + k],
                    forall|k: int| i <= k < b0.len() ==> buffer@[k] == b0[k],
                decreases n - i,
            {
                buffer[i] = storage[start + i];
                i = i + 1;
            }
            assert(buffer@ =~= storage@.subrange(address as int, address + n) + b0.subrange(
                n as int,
                b0.len() as int,
            ));
            return Ok(());
        }
        j = j + 1;
    }
    Err(())
}

/// The first register, from position `from` on, whose own words hold
/// `address .. address + word_count`.
pub open spec fn first_write_match<T>(
    map: Seq<Register<T>>,
    from: int,
    word_size: int,
    address: int,
    word_count: int,
) -> Option<int>
    decreases map.len() - from,
{
    if from < 0 || from >= map.len() {
        None
    } else {
        let start = reg_start(map[from], word_size);
        let end = start + reg_len(map[from], word_size);
        if address >= start && address < end && address + word_count * word_size <= end {
            Some(from)
        } else {
            first_write_match(map, from + 1, word_size, address, word_count)
        }
    }
}

/// Writes `value` over the words of the first register that holds
/// `address .. address + word_count`, from the start of that register; the write is
/// refused when no register holds them.
pub fn register_write_by_address<T>(
    map: &[Register<T>],
    word_size: usize,
    storage: &mut [u8],
    address: usize,
    word_count: usize,
    value: &[u8],
) -> (res: Result<(), ()>)
    requires
        old(storage)@.len() <= isize::MAX,
        map_fits(map@, word_size as int, old(storage)@.len() as int),
        address + word_count * word_size <= usize::MAX,
        first_write_match(map@, 0, word_size as int, address as int, word_count as int) matches Some(
            i,
        ) ==> value@.len() == address + word_count * word_size - reg_start(
            map@[i],
            word_size as int,
        ),
    ensures
        first_write_match(map@, 0, word_size as int, address as int, word_count as int) is None
            ==> res is Err && final(storage)@ == old(storage)@,
        first_write_match(map@, 0, word_size as int, address as int, word_count as int) matches Some(
            i,
        ) ==> ({
            let start = reg_start(map@[i], word_size as int);
            res is Ok && final(storage)@ == old(storage)@.subrange(0, start) + value@ + old(
                storage,
            )@.subrange(start + value@.len(), old(storage)@.len() as int)
        }),
{
    let ghost s0 = storage@;
    let n = word_count * word_size;
    let end_address = address + n;
    let mut j: usize = 0;
    while j < map.len()
        invariant
            j <= map@.len(),
            n == word_count * word_size,
            end_address == address + n,
            storage@ == s0,
            s0 == old(storage)@,
            s0.len() <= isize::MAX,
            map_fits(map@, word_size as int, s0.len() as int),
            first_write_match(map@, 0, word_size as int, address as int, word_count as int)
                == first_write_match(map@, j as int, word_size as int, address as int, word_count as int),
            first_write_match(map@, 0, word_size as int, address as int, word_count as int) matches Some(
                i,
            ) ==> value@.len() == address + word_count * word_size - reg_start(
                map@[i],
                word_size as int,
            ),
        decreases map@.len() - j,
    {
        let reg = &map[j];
        proof {
            assert(reg_start(map@[j as int], word_size as int) + reg_len(
                map@[j as int],
                word_size as int,
            ) <= s0.len());
            lemma_reg_bounds(map@[j as int], word_size as int, s0.len() as int);
        }
        let start = reg.address * word_size;
        let end = start + reg.byte_size as usize * word_size;
        if address >= start && address < end && end_address <= end {
            assert(first_write_match(map@, j as int, word_size as int, address as int, word_count as int)
                == Some(j as int));
            let len = end_address - start;
            assert(start == reg_start(map@[j as int], word_size as int));
            assert(value@.len() == len);
            let mut i: usize = 0;
            while i < len
                invariant
                    i <= len,
                    len == value@.len(),
                    start + len <= s0.len(),
                    s0.len() <= isize::MAX,
                    storage@.len() == s0.len(),
                    forall|k: int| 0 <= k < start ==> storage@[k] == s0[k],
                    forall|k: int| 0 <= k < i ==> storage@[start + k] == value@[k],
                    forall|k: int| start + i <= k < s0.len() ==> storage@[k] == s0[k],
                decreases len - i,
            {
                storage[start + i] = value[i];
                i = i + 1;
            }
            assert(storage@ =~= s0.subrange(0, start as int) + value@ + s0.subrange(
                start + len,
                s0.len() as int,
            ));
            return Ok(());
        }
        j = j + 1;
    }
    Err(())
}

} // verus!
