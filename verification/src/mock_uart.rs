//! A mock UART for test code: bytes pushed in are read back in order.
use vstd::prelude::*;

verus! {

/// What a mock UART holds: every byte written so far, and how many of them have been read.
pub struct UartContents {
    pub written: Seq<u8>,
    pub read_pos: nat,
}

/// Pushing `bytes` appends them to what was written.
pub open spec fn uart_push(c: UartContents, bytes: Seq<u8>) -> UartContents {
    UartContents { written: c.written + bytes, read_pos: c.read_pos }
}

/// One read: the next unread byte, or `None` (and no change) when every written byte has
/// been read.
pub open spec fn uart_read_step(c: UartContents) -> (UartContents, Option<u8>) {
    if c.read_pos < c.written.len() {
        (UartContents { written: c.written, read_pos: c.read_pos + 1 }, Some(c.written[c.read_pos as int]))
    } else {
        (c, None)
    }
}

/// What `n` successive reads return.
pub open spec fn uart_reads(c: UartContents, n: nat) -> Seq<Option<u8>>
    decreases n,
{
    if n == 0 {
        Seq::empty()
    } else {
        seq![uart_read_step(c).1] + uart_reads(uart_read_step(c).0, (n - 1) as nat)
    }
}

/// Reading `n` bytes that are there returns them in the order they were written.
proof fn lemma_reads_in_order(c: UartContents, n: nat)
    requires
        c.read_pos + n <= c.written.len(),
    ensures
        uart_reads(c, n) == c.written.subrange(c.read_pos as int, (c.read_pos + n) as int).map_values(
            |b: u8| Some(b),
        ),
    decreases n,
{
    if n > 0 {
        let next = uart_read_step(c).0;
        lemma_reads_in_order(next, (n - 1) as nat);
        assert(uart_reads(c, n) =~= c.written.subrange(c.read_pos as int, (c.read_pos + n) as int).map_values(
            |b: u8| Some(b),
        ));
    }
}

/// What a read gives back of a write: once every byte written has been read, pushing
/// `bytes` makes the next `bytes.len()` reads return them in order, and the read after
/// them returns `None`.
pub proof fn lemma_reads_return_pushed_bytes(c: UartContents, bytes: Seq<u8>)
    requires
        c.read_pos == c.written.len(),
    ensures
        uart_reads(uart_push(c, bytes), bytes.len()) == bytes.map_values(|b: u8| Some(b)),
        uart_reads(uart_push(c, bytes), bytes.len() + 1) == bytes.map_values(|b: u8| Some(b)).push(
            None,
        ),
{
    let pushed = uart_push(c, bytes);
    lemma_reads_in_order(pushed, bytes.len());
    assert(pushed.written.subrange(c.read_pos as int, (c.read_pos + bytes.len()) as int) =~= bytes);
    lemma_reads_then_empty(pushed, bytes.len());
}

/// After `n` reads that are all there, one more read returns `None`.
proof fn lemma_reads_then_empty(c: UartContents, n: nat)
    requires
        c.read_pos + n == c.written.len(),
    ensures
        uart_reads(c, n + 1) == uart_reads(c, n).push(None),
    decreases n,
{
    if n == 0 {
        assert(uart_reads(uart_read_step(c).0, 0) =~= Seq::<Option<u8>>::empty());
        assert(uart_reads(c, 1) =~= seq![None::<u8>]);
    } else {
        let next = uart_read_step(c).0;
        lemma_reads_then_empty(next, (n - 1) as nat);
        assert(uart_reads(c, n + 1) =~= uart_reads(c, n).push(None));
    }
}

/// Mock UART for test code.
#[derive(Clone, Copy, Debug, PartialEq)]
pub struct MockUart {
    data: [u8; 64],
    read_pos: usize,
    write_pos: usize,
}

impl MockUart {
    #[verifier::type_invariant]
    spec fn inv(self) -> bool {
        self.read_pos <= self.write_pos <= 64
    }
}

impl View for MockUart {
    type V = UartContents;

    closed spec fn view(&self) -> UartContents {
        UartContents {
            written: self.data@.subrange(0, self.write_pos as int),
            read_pos: self.read_pos as nat,
        }
    }
}

impl Default for MockUart {
    fn default() -> (r: Self)
        ensures
            r@.written == Seq::<u8>::empty(),
            r@.read_pos == 0,
    {
        Self::new()
    }
}

impl MockUart {
    /// An empty mock UART.
    pub fn new() -> (r: Self)
        ensures
            r@.written == Seq::<u8>::empty(),
            r@.read_pos == 0,
    {
        let r = Self { data: [0u8; 64], read_pos: 0, write_pos: 0 };
        assert(r@.written =~= Seq::<u8>::empty());
        r
    }

    /// Loads the mock with test data (eg an SBUS packet): the bytes are appended to what was
    /// written. At most 64 bytes can be written in all.
    pub fn push_data(&mut self, bytes: &[u8])
        requires
            old(self)@.written.len() + bytes@.len() <= 64,
        ensures
            final(self)@ == uart_push(old(self)@, bytes@),
    {
        proof {
            use_type_invariant(&*self);
        }
        let ghost start = self@.written;
        let mut i: usize = 0;
        while i < bytes.len()
            invariant
                0 <= i <= bytes@.len(),
                self.read_pos <= self.write_pos,
                self.write_pos == start.len() + i,
                start.len() + bytes@.len() <= 64,
                self@.written == start + bytes@.subrange(0, i as int),
                self@.read_pos == old(self)@.read_pos,
            decreases bytes@.len() - i,
        {
            proof {
                use_type_invariant(&*self);
            }
            let b = bytes[i];
            let ghost before = self@.written;
            self.data[self.write_pos] = b;
            self.write_pos += 1;
            i += 1;
            assert(self@.written =~= before.push(b));
            assert(bytes@.subrange(0, i as int) =~= bytes@.subrange(0, i - 1).push(b));
        }
        assert(bytes@.subrange(0, bytes@.len() as int) =~= bytes@);
    }

    /// Reads the next unread byte, or `None` when every written byte has been read.
    pub fn read(&mut self) -> (r: Option<u8>)
        ensures
            (final(self)@, r) == uart_read_step(old(self)@),
    {
        proof {
            use_type_invariant(&*self);
        }
        if self.read_pos < self.write_pos {
            let byte = self.data[self.read_pos];
            self.read_pos += 1;
            Some(byte)
        } else {
            None
        }
    }
}

} // verus!
