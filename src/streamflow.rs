use vstd::prelude::*;

use crate::error::ErrorCode;
use crate::key::AccountKey;

verus! {

/// One investor as seen by the page processor: who, how much is still locked, and the total
/// allocation of its streams.
#[derive(Debug, Clone, Copy)]
pub struct InvestorData {
    pub wallet: AccountKey,
    pub locked_amount: u64,
    pub total_allocation: u64,
}

/// A vesting stream, as stored in its account after the 8-byte discriminator.
#[derive(Debug, Clone, Copy)]
pub struct StreamflowStream {
    pub recipient: AccountKey,
    pub sender: AccountKey,
    pub mint: AccountKey,
    pub deposited_amount: u64,
    pub withdrawn_amount: u64,
    pub start_time: i64,
    pub end_time: i64,
    pub cliff_time: i64,
    pub cancelable_by_sender: bool,
    pub cancelable_by_recipient: bool,
    pub automatic_withdrawal: bool,
    pub transferable_by_sender: bool,
    pub transferable_by_recipient: bool,
    pub can_topup: bool,
    pub stream_name: [u8; 64],
    pub withdrawn_tokens_recipient: u64,
    pub withdrawn_tokens_sender: u64,
    pub last_withdrawn_at: i64,
    pub closed_at: Option<i64>,
}

/// Length of the discriminator that precedes a stream record.
pub const DISCRIMINATOR_LEN: usize = 8;

/// Length of a stream record after the discriminator.
pub const STREAM_RECORD_LEN: usize = 238;

/// The unsigned little-endian integer in the eight bytes of `s` at `o`.
pub open spec fn u64_le(s: Seq<u8>, o: int) -> int {
    s[o] + 256 * (s[o + 1] + 256 * (s[o + 2] + 256 * (s[o + 3] + 256 * (s[o + 4] + 256 * (s[o
        + 5] + 256 * (s[o + 6] + 256 * s[o + 7]))))))
}

/// The two's-complement little-endian integer in the eight bytes of `s` at `o`.
pub open spec fn i64_le(s: Seq<u8>, o: int) -> int {
    if u64_le(s, o) > i64::MAX {
        u64_le(s, o) - 0x1_0000_0000_0000_0000
    } else {
        u64_le(s, o)
    }
}

/// `st` is the stream that the record `body` (without discriminator) encodes.
pub open spec fn decodes_to(body: Seq<u8>, st: StreamflowStream) -> bool {
    &&& st.recipient@ == body.subrange(0, 32)
    &&& st.sender@ == body.subrange(32, 64)
    &&& st.mint@ == body.subrange(64, 96)
    &&& st.deposited_amount == u64_le(body, 96)
    &&& st.withdrawn_amount == u64_le(body, 104)
    &&& st.start_time == i64_le(body, 112)
    &&& st.end_time == i64_le(body, 120)
    &&& st.cliff_time == i64_le(body, 128)
    &&& st.cancelable_by_sender == (body[136] != 0)
    &&& st.cancelable_by_recipient == (body[137] != 0)
    &&& st.automatic_withdrawal == (body[138] != 0)
    &&& st.transferable_by_sender == (body[139] != 0)
    &&& st.transferable_by_recipient == (body[140] != 0)
    &&& st.can_topup == (body[141] != 0)
    &&& st.stream_name@ == body.subrange(142, 206)
    &&& st.withdrawn_tokens_recipient == u64_le(body, 206)
    &&& st.withdrawn_tokens_sender == u64_le(body, 214)
    &&& st.last_withdrawn_at == i64_le(body, 222)
    &&& st.closed_at == (if i64_le(body, 230) == 0 {
        None
    } else {
        Some(i64_le(body, 230) as i64)
    })
}

fn read_u64_le(data: &[u8], offset: usize) -> (r: u64)
    requires
        offset + 8 <= data@.len(),
    ensures
        r == u64_le(data@, offset as int),
{
    let o = offset;
    (data[o] as u64) + 256 * ((data[o + 1] as u64) + 256 * ((data[o + 2] as u64) + 256 * ((data[o
        + 3] as u64) + 256 * ((data[o + 4] as u64) + 256 * ((data[o + 5] as u64) + 256 * ((data[o
        + 6] as u64) + 256 * (data[o + 7] as u64)))))))
}

fn read_i64_le(data: &[u8], offset: usize) -> (r: i64)
    requires
        offset + 8 <= data@.len(),
    ensures
        r == i64_le(data@, offset as int),
{
    let u = read_u64_le(data, offset);
    if u > i64::MAX as u64 {
        let below = u - (i64::MAX as u64) - 1;
        (below as i64) + i64::MIN
    } else {
        u as i64
    }
}

fn read_key(data: &[u8], offset: usize) -> (r: AccountKey)
    requires
        offset + 32 <= data@.len(),
    ensures
        r@ == data@.subrange(offset as int, offset + 32),
{
    let mut bytes = [0u8; 32];
    let mut i: usize = 0;
    while i < 32
        invariant
            0 <= i <= 32,
            offset + 32 <= data.len(),
            forall|j: int| 0 <= j < i ==> bytes@[j] == data@[offset + j],
        decreases 32 - i,
    {
        bytes[i] = data[offset + i];
        i = i + 1;
    }
    let r = AccountKey { bytes };
    assert(r@ =~= data@.subrange(offset as int, offset + 32));
    r
}

fn read_name(data: &[u8], offset: usize) -> (r: [u8; 64])
    requires
        offset + 64 <= data@.len(),
    ensures
        r@ == data@.subrange(offset as int, offset + 64),
{
    let mut bytes = [0u8; 64];
    let mut i: usize = 0;
    while i < 64
        invariant
            0 <= i <= 64,
            offset + 64 <= data.len(),
            forall|j: int| 0 <= j < i ==> bytes@[j] == data@[offset + j],
        decreases 64 - i,
    {
        bytes[i] = data[offset + i];
        i = i + 1;
    }
    assert(bytes@ =~= data@.subrange(offset as int, offset + 64));
    bytes
}

proof fn lemma_subrange_shift(data: Seq<u8>, base: int, o: int, n: int)
    requires
        0 <= base,
        0 <= o,
        0 <= n,
        base + o + n <= data.len(),
    ensures
        data.subrange(base, data.len() as int).subrange(o, o + n) == data.subrange(
            base + o,
            base + o + n,
        ),
{
    assert(data.subrange(base, data.len() as int).subrange(o, o + n) =~= data.subrange(
        base + o,
        base + o + n,
    ));
}

impl StreamflowStream {
    /// Decodes a stream account: an 8-byte discriminator followed by the record.
    pub fn try_from_account_data(data: &[u8]) -> (r: Result<StreamflowStream, ErrorCode>)
        ensures
            data@.len() < DISCRIMINATOR_LEN + STREAM_RECORD_LEN ==> r == Err::<
                StreamflowStream,
                ErrorCode,
            >(ErrorCode::StreamflowValidationFailed),
            data@.len() >= DISCRIMINATOR_LEN + STREAM_RECORD_LEN ==> (r matches Ok(st)
                && decodes_to(data@.subrange(8, data@.len() as int), st)),
    {
        if data.len() < DISCRIMINATOR_LEN + STREAM_RECORD_LEN {
            return Err(ErrorCode::StreamflowValidationFailed);
        }
        let ghost body = data@.subrange(8, data@.len() as int);
        let b: usize = DISCRIMINATOR_LEN;
        let recipient = read_key(data, b);
        let sender = read_key(data, b + 32);
        let mint = read_key(data, b + 64);
        let deposited_amount = read_u64_le(data, b + 96);
        let withdrawn_amount = read_u64_le(data, b + 104);
        let start_time = read_i64_le(data, b + 112);
        let end_time = read_i64_le(data, b + 120);
        let cliff_time = read_i64_le(data, b + 128);
        let cancelable_by_sender = data[b + 136] != 0;
        let cancelable_by_recipient = data[b + 137] != 0;
        let automatic_withdrawal = data[b + 138] != 0;
        let transferable_by_sender = data[b + 139] != 0;
        let transferable_by_recipient = data[b + 140] != 0;
        let can_topup = data[b + 141] != 0;
        let stream_name = read_name(data, b + 142);
        let withdrawn_tokens_recipient = read_u64_le(data, b + 206);
        let withdrawn_tokens_sender = read_u64_le(data, b + 214);
        let last_withdrawn_at = read_i64_le(data, b + 222);
        let closed_at_raw = read_i64_le(data, b + 230);
        let closed_at = if closed_at_raw == 0 {
            None
        } else {
            Some(closed_at_raw)
        };
        proof {
            lemma_subrange_shift(data@, 8, 0, 32);
            lemma_subrange_shift(data@, 8, 32, 32);
            lemma_subrange_shift(data@, 8, 64, 32);
            lemma_subrange_shift(data@, 8, 142, 64);
        }
        Ok(
            StreamflowStream {
                recipient,
                sender,
                mint,
                deposited_amount,
                withdrawn_amount,
                start_time,
                end_time,
                cliff_time,
                cancelable_by_sender,
                cancelable_by_recipient,
                automatic_withdrawal,
                transferable_by_sender,
                transferable_by_recipient,
                can_topup,
                stream_name,
                withdrawn_tokens_recipient,
                withdrawn_tokens_sender,
                last_withdrawn_at,
                closed_at,
            },
        )
    }
}


/// `a - b`, or zero when `b` is larger.
pub open spec fn sat_sub(a: int, b: int) -> int {
    if a >= b {
        a - b
    } else {
        0
    }
}

/// `a + b`, or `u64::MAX` when the sum is larger.
pub open spec fn sat_add_u64(a: int, b: int) -> int {
    if a + b > u64::MAX {
        u64::MAX as int
    } else {
        a + b
    }
}

/// `x` clamped to the range of `i64`.
pub open spec fn clamp_i64(x: int) -> int {
    if x > i64::MAX {
        i64::MAX as int
    } else if x < i64::MIN {
        i64::MIN as int
    } else {
        x
    }
}

/// The amount of a stream still locked at `now`: everything not withdrawn before the start and
/// before the cliff, nothing after the end or once closed, and in between what linear vesting
/// from the start has not yet released.
pub open spec fn locked_at(st: StreamflowStream, now: i64) -> int {
    let available = sat_sub(st.deposited_amount as int, st.withdrawn_amount as int);
    if st.closed_at is Some {
        0
    } else if now < st.start_time || now < st.cliff_time {
        available
    } else if now >= st.end_time {
        0
    } else {
        let duration = clamp_i64(st.end_time - st.start_time);
        let elapsed = clamp_i64(now - st.start_time);
        sat_sub(available, st.deposited_amount * elapsed / duration)
    }
}

/// The checks a decoded stream must pass: the expected mint, still open, and a start before
/// the end with the cliff between them.
pub open spec fn stream_check(st: StreamflowStream, expected_mint: AccountKey) -> Result<
    (),
    ErrorCode,
> {
    if st.mint@ != expected_mint@ || st.closed_at is Some || st.start_time >= st.end_time
        || st.cliff_time < st.start_time || st.cliff_time > st.end_time {
        Err(ErrorCode::StreamflowValidationFailed)
    } else {
        Ok(())
    }
}

fn clamp_to_i64(x: i128) -> (r: i64)
    ensures
        r == clamp_i64(x as int),
{
    if x > i64::MAX as i128 {
        i64::MAX
    } else if x < i64::MIN as i128 {
        i64::MIN
    } else {
        x as i64
    }
}

/// Index of the first investor of `acc` whose wallet is `w`, or -1.
pub open spec fn find_wallet(acc: Seq<InvestorData>, w: Seq<u8>) -> int
    decreases acc.len(),
{
    if acc.len() == 0 {
        -1
    } else {
        let i = find_wallet(acc.drop_last(), w);
        if i >= 0 {
            i
        } else if acc.last().wallet@ == w {
            acc.len() - 1
        } else {
            -1
        }
    }
}

/// `acc` with one more stream of `wallet`: added to that investor's entry, or appended as a
/// new investor; both sums saturate.
pub open spec fn add_stream(
    acc: Seq<InvestorData>,
    wallet: AccountKey,
    locked: int,
    allocation: int,
) -> Seq<InvestorData> {
    let i = find_wallet(acc, wallet@);
    if i < 0 {
        acc.push(
            InvestorData { wallet, locked_amount: locked as u64, total_allocation: allocation as u64 },
        )
    } else {
        acc.update(
            i,
            InvestorData {
                locked_amount: sat_add_u64(acc[i].locked_amount as int, locked) as u64,
                total_allocation: sat_add_u64(acc[i].total_allocation as int, allocation) as u64,
                ..acc[i]
            },
        )
    }
}

/// The streams grouped by recipient, in order of first appearance.
pub open spec fn aggregate(streams: Seq<StreamflowStream>, now: i64) -> Seq<InvestorData>
    decreases streams.len(),
{
    if streams.len() == 0 {
        Seq::empty()
    } else {
        let st = streams.last();
        add_stream(
            aggregate(streams.drop_last(), now),
            st.recipient,
            locked_at(st, now),
            st.deposited_amount as int,
        )
    }
}

/// Every stream passes the checks.
pub open spec fn all_streams_ok(streams: Seq<StreamflowStream>, expected_mint: AccountKey) -> bool {
    forall|i: int| 0 <= i < streams.len() ==> #[trigger] stream_check(streams[i], expected_mint) is Ok
}

/// The saturating sum of the locked amounts of the streams.
pub open spec fn locked_total_of(streams: Seq<StreamflowStream>, now: i64) -> int
    decreases streams.len(),
{
    if streams.len() == 0 {
        0
    } else {
        sat_add_u64(locked_total_of(streams.drop_last(), now), locked_at(streams.last(), now))
    }
}

/// The saturating sum of the locked amounts of the investors.
pub open spec fn investors_locked_total(investors: Seq<InvestorData>) -> int
    decreases investors.len(),
{
    if investors.len() == 0 {
        0
    } else {
        sat_add_u64(investors_locked_total(investors.drop_last()), investors.last().locked_amount as int)
    }
}

proof fn lemma_find_wallet(acc: Seq<InvestorData>, w: Seq<u8>, k: int)
    requires
        0 <= k <= acc.len(),
        forall|j: int| 0 <= j < k ==> #[trigger] acc[j].wallet@ != w,
        k < acc.len() ==> acc[k].wallet@ == w,
    ensures
        find_wallet(acc, w) == (if k < acc.len() {
            k
        } else {
            -1
        }),
    decreases acc.len(),
{
    if acc.len() > 0 {
        let d = acc.drop_last();
        if k < acc.len() - 1 {
            lemma_find_wallet(d, w, k);
        } else {
            assert forall|j: int| 0 <= j < d.len() implies #[trigger] d[j].wallet@ != w by {
                assert(acc[j].wallet@ != w);
            }
            lemma_find_wallet(d, w, d.len() as int);
        }
    }
}

fn sat_add(a: u64, b: u64) -> (r: u64)
    ensures
        r == sat_add_u64(a as int, b as int),
{
    if a > u64::MAX - b {
        u64::MAX
    } else {
        a + b
    }
}

/// Position of the investor with `wallet` in `list`, if any.
fn find_investor(list: &Vec<InvestorData>, wallet: &AccountKey) -> (r: Option<usize>)
    ensures
        match r {
            Some(i) => i == find_wallet(list@, wallet@) && i < list@.len(),
            None => find_wallet(list@, wallet@) == -1,
        },
{
    let mut j: usize = 0;
    while j < list.len()
        invariant
            0 <= j <= list@.len(),
            forall|t: int| 0 <= t < j ==> #[trigger] list@[t].wallet@ != wallet@,
        decreases list@.len() - j,
    {
        if list[j].wallet.same_as(wallet) {
            proof {
                lemma_find_wallet(list@, wallet@, j as int);
            }
            return Some(j);
        }
        j = j + 1;
    }
    proof {
        lemma_find_wallet(list@, wallet@, list@.len() as int);
    }
    None
}

/// Streamflow vesting records: decoding, validation and aggregation by investor.
pub struct StreamflowIntegration;

impl StreamflowIntegration {
    /// The amount of `stream` still locked at `current_timestamp`.
    pub fn calculate_locked_amount(stream: &StreamflowStream, current_timestamp: i64) -> (r:
        Result<u64, ErrorCode>)
        ensures
            r matches Ok(locked) && locked == locked_at(*stream, current_timestamp),
    {
        let available = if stream.deposited_amount >= stream.withdrawn_amount {
            stream.deposited_amount - stream.withdrawn_amount
        } else {
            0
        };
        if stream.closed_at.is_some() {
            return Ok(0);
        }
        if current_timestamp < stream.start_time || current_timestamp < stream.cliff_time {
            return Ok(available);
        }
        if current_timestamp >= stream.end_time {
            return Ok(0);
        }
        let duration = clamp_to_i64((stream.end_time as i128) - (stream.start_time as i128));
        let elapsed = clamp_to_i64((current_timestamp as i128) - (stream.start_time as i128));
        assert(0 <= elapsed <= duration);
        assert(duration > 0);
        let deposited = stream.deposited_amount;
        proof {
            assert(deposited as int * elapsed as int <= deposited as int * duration as int)
                by (nonlinear_arith)
                requires
                    0 <= elapsed <= duration,
            ;
            assert(deposited as int * duration as int <= u64::MAX as int * i64::MAX as int)
                by (nonlinear_arith)
                requires
                    0 <= duration <= i64::MAX,
                    deposited <= u64::MAX,
            ;
            vstd::arithmetic::div_mod::lemma_div_is_ordered(
                deposited as int * elapsed as int,
                deposited as int * duration as int,
                duration as int,
            );
            vstd::arithmetic::div_mod::lemma_div_by_multiple(deposited as int, duration as int);
        }
        let vested = ((deposited as u128) * (elapsed as u128) / (duration as u128)) as u64;
        let locked = if available >= vested {
            available - vested
        } else {
            0
        };
        Ok(locked)
    }

    /// Groups the streams by recipient, in order of first appearance: each investor's locked
    /// amount and allocation are the saturating sums over its streams. Fails when a stream
    /// does not pass the checks.
    pub fn aggregate_investor_data(
        streams: &[StreamflowStream],
        expected_mint: &AccountKey,
        current_timestamp: i64,
    ) -> (r: Result<Vec<InvestorData>, ErrorCode>)
        ensures
            all_streams_ok(streams@, *expected_mint) ==> (r matches Ok(v) && v@ == aggregate(
                streams@,
                current_timestamp,
            )),
            !all_streams_ok(streams@, *expected_mint) ==> r == Err::<Vec<InvestorData>, ErrorCode>(
                ErrorCode::StreamflowValidationFailed,
            ),
    {
        let mut investors: Vec<InvestorData> = Vec::new();
        let mut i: usize = 0;
        while i < streams.len()
            invariant
                0 <= i <= streams@.len(),
                all_streams_ok(streams@.subrange(0, i as int), *expected_mint),
                investors@ == aggregate(streams@.subrange(0, i as int), current_timestamp),
            decreases streams@.len() - i,
        {
            let stream = &streams[i];
            proof {
                assert(streams@.subrange(0, i + 1).drop_last() =~= streams@.subrange(0, i as int));
            }
            match Self::validate_stream(stream, expected_mint) {
                Ok(_) => {},
                Err(e) => {
                    return Err(e);
                },
            }
            let locked = match Self::calculate_locked_amount(stream, current_timestamp) {
                Ok(l) => l,
                Err(e) => {
                    return Err(e);
                },
            };
            match find_investor(&investors, &stream.recipient) {
                Some(j) => {
                    let cur = investors[j];
                    let updated = InvestorData {
                        locked_amount: sat_add(cur.locked_amount, locked),
                        total_allocation: sat_add(cur.total_allocation, stream.deposited_amount),
                        ..cur
                    };
                    investors.set(j, updated);
                },
                None => {
                    investors.push(
                        InvestorData {
                            wallet: stream.recipient,
                            locked_amount: locked,
                            total_allocation: stream.deposited_amount,
                        },
                    );
                },
            }
            proof {
                assert forall|t: int| 0 <= t < i + 1 implies #[trigger] stream_check(
                    streams@.subrange(0, i + 1)[t],
                    *expected_mint,
                ) is Ok by {
                    if t < i {
                        assert(streams@.subrange(0, i + 1)[t] == streams@.subrange(0, i as int)[t]);
                    }
                }
            }
            i = i + 1;
        }
        assert(streams@.subrange(0, streams@.len() as int) =~= streams@);
        Ok(investors)
    }

    /// The saturating sum of the locked amounts of all streams; fails when a stream does not
    /// pass the checks.
    pub fn calculate_total_locked(
        streams: &[StreamflowStream],
        expected_mint: &AccountKey,
        current_timestamp: i64,
    ) -> (r: Result<u64, ErrorCode>)
        ensures
            all_streams_ok(streams@, *expected_mint) ==> r == Ok::<u64, ErrorCode>(
                locked_total_of(streams@, current_timestamp) as u64,
            ),
            !all_streams_ok(streams@, *expected_mint) ==> r == Err::<u64, ErrorCode>(
                ErrorCode::StreamflowValidationFailed,
            ),
    {
        let mut total: u64 = 0;
        let mut i: usize = 0;
        while i < streams.len()
            invariant
                0 <= i <= streams@.len(),
                all_streams_ok(streams@.subrange(0, i as int), *expected_mint),
                total == locked_total_of(streams@.subrange(0, i as int), current_timestamp),
            decreases streams@.len() - i,
        {
            let stream = &streams[i];
            proof {
                assert(streams@.subrange(0, i + 1).drop_last() =~= streams@.subrange(0, i as int));
            }
            match Self::validate_stream(stream, expected_mint) {
                Ok(_) => {},
                Err(e) => {
                    return Err(e);
                },
            }
            let locked = match Self::calculate_locked_amount(stream, current_timestamp) {
                Ok(l) => l,
                Err(e) => {
                    return Err(e);
                },
            };
            total = sat_add(total, locked);
            proof {
                assert forall|t: int| 0 <= t < i + 1 implies #[trigger] stream_check(
                    streams@.subrange(0, i + 1)[t],
                    *expected_mint,
                ) is Ok by {
                    if t < i {
                        assert(streams@.subrange(0, i + 1)[t] == streams@.subrange(0, i as int)[t]);
                    }
                }
            }
            i = i + 1;
        }
        assert(streams@.subrange(0, streams@.len() as int) =~= streams@);
        Ok(total)
    }

    /// The investors of one page of streams: the number of streams in the page, the
    /// saturating sum of the investors' locked amounts, and each investor with its locked
    /// amount.
    pub fn process_investor_page(
        streams: &[StreamflowStream],
        expected_mint: &AccountKey,
        current_timestamp: i64,
        page_start: usize,
        page_size: usize,
    ) -> (r: Result<(usize, u64, Vec<(AccountKey, u64)>), ErrorCode>)
        ensures
            page_start > streams@.len() ==> r == Err::<(usize, u64, Vec<(AccountKey, u64)>), ErrorCode>(
                ErrorCode::InvalidPaginationCursor,
            ),
            page_start <= streams@.len() ==> {
                let end = if page_start + page_size <= streams@.len() {
                    page_start + page_size
                } else {
                    streams@.len() as int
                };
                let page = streams@.subrange(page_start as int, end);
                let agg = aggregate(page, current_timestamp);
                &&& all_streams_ok(page, *expected_mint) ==> (r matches Ok((count, total, list))
                    && count == end - page_start && total == investors_locked_total(agg)
                    && list@.len() == agg.len() && forall|k: int|
                    0 <= k < agg.len() ==> (#[trigger] list@[k]).0 == agg[k].wallet && list@[k].1
                        == agg[k].locked_amount)
                &&& !all_streams_ok(page, *expected_mint) ==> r == Err::<
                    (usize, u64, Vec<(AccountKey, u64)>),
                    ErrorCode,
                >(ErrorCode::StreamflowValidationFailed)
            },
    {
        if page_start > streams.len() {
            return Err(ErrorCode::InvalidPaginationCursor);
        }
        let end_index = if streams.len() - page_start >= page_size {
            page_start + page_size
        } else {
            streams.len()
        };
        let page = &streams[page_start..end_index];
        assert(page@ == streams@.subrange(page_start as int, end_index as int));
        let investors = match Self::aggregate_investor_data(page, expected_mint, current_timestamp) {
            Ok(v) => v,
            Err(e) => {
                return Err(e);
            },
        };
        let mut total_locked: u64 = 0;
        let mut list: Vec<(AccountKey, u64)> = Vec::new();
        let mut k: usize = 0;
        while k < investors.len()
            invariant
                0 <= k <= investors@.len(),
                list@.len() == k,
                total_locked == investors_locked_total(investors@.subrange(0, k as int)),
                forall|t: int|
                    0 <= t < k ==> (#[trigger] list@[t]).0 == investors@[t].wallet && list@[t].1
                        == investors@[t].locked_amount,
            decreases investors@.len() - k,
        {
            proof {
                assert(investors@.subrange(0, k + 1).drop_last() =~= investors@.subrange(
                    0,
                    k as int,
                ));
            }
            let inv = investors[k];
            total_locked = sat_add(total_locked, inv.locked_amount);
            list.push((inv.wallet, inv.locked_amount));
            k = k + 1;
        }
        assert(investors@.subrange(0, investors@.len() as int) =~= investors@);
        Ok((end_index - page_start, total_locked, list))
    }

    /// Checks every stream.
    pub fn validate_all_streams_mint(streams: &[StreamflowStream], expected_mint: &AccountKey) -> (r:
        Result<(), ErrorCode>)
        ensures
            r == (if all_streams_ok(streams@, *expected_mint) {
                Ok(())
            } else {
                Err(ErrorCode::StreamflowValidationFailed)
            }),
    {
        let mut i: usize = 0;
        while i < streams.len()
            invariant
                0 <= i <= streams@.len(),
                forall|t: int| 0 <= t < i ==> #[trigger] stream_check(streams@[t], *expected_mint) is Ok,
            decreases streams@.len() - i,
        {
            match Self::validate_stream(&streams[i], expected_mint) {
                Ok(_) => {},
                Err(e) => {
                    return Err(e);
                },
            }
            i = i + 1;
        }
        Ok(())
    }

    /// The number of distinct recipients among the streams; fails when a stream does not pass
    /// the checks.
    pub fn get_unique_investor_count(streams: &[StreamflowStream], expected_mint: &AccountKey) -> (r:
        Result<usize, ErrorCode>)
        ensures
            all_streams_ok(streams@, *expected_mint) ==> r == Ok::<usize, ErrorCode>(
                aggregate(streams@, 0).len() as usize,
            ),
            !all_streams_ok(streams@, *expected_mint) ==> r == Err::<usize, ErrorCode>(
                ErrorCode::StreamflowValidationFailed,
            ),
    {
        match Self::aggregate_investor_data(streams, expected_mint, 0) {
            Ok(v) => Ok(v.len()),
            Err(e) => Err(e),
        }
    }

    /// Checks a decoded stream: the expected mint, still open, and sound times.
    pub fn validate_stream(stream: &StreamflowStream, expected_mint: &AccountKey) -> (r: Result<
        (),
        ErrorCode,
    >)
        ensures
            r == stream_check(*stream, *expected_mint),
    {
        if !stream.mint.same_as(expected_mint) {
            return Err(ErrorCode::StreamflowValidationFailed);
        }
        if stream.closed_at.is_some() {
            return Err(ErrorCode::StreamflowValidationFailed);
        }
        if stream.start_time >= stream.end_time {
            return Err(ErrorCode::StreamflowValidationFailed);
        }
        if stream.cliff_time < stream.start_time || stream.cliff_time > stream.end_time {
            return Err(ErrorCode::StreamflowValidationFailed);
        }
        Ok(())
    }

    /// Decodes a stream account and checks it.
    pub fn validate_and_parse_stream(data: &[u8], expected_mint: &AccountKey) -> (r: Result<
        StreamflowStream,
        ErrorCode,
    >)
        ensures
            match r {
                Ok(st) => {
                    &&& data@.len() >= DISCRIMINATOR_LEN + STREAM_RECORD_LEN
                    &&& decodes_to(data@.subrange(8, data@.len() as int), st)
                    &&& stream_check(st, *expected_mint) is Ok
                },
                Err(e) => {
                    &&& e == ErrorCode::StreamflowValidationFailed
                    &&& (data@.len() < DISCRIMINATOR_LEN + STREAM_RECORD_LEN || forall|
                        st: StreamflowStream,
                    |
                        #![trigger decodes_to(data@.subrange(8, data@.len() as int), st)]
                        decodes_to(data@.subrange(8, data@.len() as int), st) ==> stream_check(
                            st,
                            *expected_mint,
                        ) is Err)
                },
            },
    {
        if data.len() == 0 {
            return Err(ErrorCode::StreamflowValidationFailed);
        }
        let stream = match StreamflowStream::try_from_account_data(data) {
            Ok(st) => st,
            Err(e) => {
                return Err(e);
            },
        };
        match Self::validate_stream(&stream, expected_mint) {
            Ok(_) => {},
            Err(e) => {
                proof {
                    assert forall|st: StreamflowStream|
                        #![trigger decodes_to(data@.subrange(8, data@.len() as int), st)]
                        decodes_to(data@.subrange(8, data@.len() as int), st) implies stream_check(
                            st,
                            *expected_mint,
                        ) is Err by {
                        lemma_decode_unique(data@.subrange(8, data@.len() as int), st, stream);
                    }
                }
                return Err(e);
            },
        }
        Ok(stream)
    }
}

/// A record decodes to one stream only, as far as the checks can tell.
proof fn lemma_decode_unique(body: Seq<u8>, a: StreamflowStream, b: StreamflowStream)
    requires
        decodes_to(body, a),
        decodes_to(body, b),
    ensures
        a.mint@ == b.mint@,
        a.closed_at == b.closed_at,
        a.start_time == b.start_time,
        a.end_time == b.end_time,
        a.cliff_time == b.cliff_time,
{
}

} // verus!
