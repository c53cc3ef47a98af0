use meteora_fee_router::error::ErrorCode;
use meteora_fee_router::key::AccountKey;
use meteora_fee_router::streamflow::{StreamflowIntegration, StreamflowStream};

fn key(n: u32) -> AccountKey {
    let mut bytes = [0u8; 32];
    bytes[..4].copy_from_slice(&n.to_le_bytes());
    bytes[31] = 1;
    AccountKey::new(bytes)
}

pub struct MockStreamflowBuilder {
    recipient: AccountKey,
    sender: AccountKey,
    mint: AccountKey,
    deposited_amount: u64,
    withdrawn_amount: u64,
    start_time: i64,
    end_time: i64,
    cliff_time: i64,
    closed_at: Option<i64>,
}

impl MockStreamflowBuilder {
    pub fn new(recipient: AccountKey, mint: AccountKey) -> Self {
        Self {
            recipient,
            sender: key(31),
            mint,
            deposited_amount: 1_000_000,
            withdrawn_amount: 0,
            start_time: 1000,
            end_time: 2000,
            cliff_time: 1000,
            closed_at: None,
        }
    }

    pub fn deposited_amount(mut self, amount: u64) -> Self {
        self.deposited_amount = amount;
        self
    }

    pub fn withdrawn_amount(mut self, amount: u64) -> Self {
        self.withdrawn_amount = amount;
        self
    }

    pub fn vesting_period(mut self, start: i64, end: i64) -> Self {
        self.start_time = start;
        self.end_time = end;
        self
    }

    pub fn cliff_time(mut self, cliff: i64) -> Self {
        self.cliff_time = cliff;
        self
    }

    pub fn closed_at(mut self, closed: Option<i64>) -> Self {
        self.closed_at = closed;
        self
    }

    pub fn sender(mut self, sender: AccountKey) -> Self {
        self.sender = sender;
        self
    }

    pub fn build(self) -> StreamflowStream {
        StreamflowStream {
            recipient: self.recipient,
            sender: self.sender,
            mint: self.mint,
            deposited_amount: self.deposited_amount,
            withdrawn_amount: self.withdrawn_amount,
            start_time: self.start_time,
            end_time: self.end_time,
            cliff_time: self.cliff_time,
            cancelable_by_sender: true,
            cancelable_by_recipient: false,
            automatic_withdrawal: false,
            transferable_by_sender: false,
            transferable_by_recipient: false,
            can_topup: false,
            stream_name: [0u8; 64],
            withdrawn_tokens_recipient: 0,
            withdrawn_tokens_sender: 0,
            last_withdrawn_at: 0,
            closed_at: self.closed_at,
        }
    }

    /// Create a stream that's fully locked at the given timestamp
    pub fn fully_locked_at(recipient: AccountKey, mint: AccountKey, amount: u64, timestamp: i64) -> StreamflowStream {
        Self::new(recipient, mint)
            .deposited_amount(amount)
            .vesting_period(timestamp + 1000, timestamp + 2000) // Starts in future
            .build()
    }

    /// Create a stream that's fully vested at the given timestamp
    pub fn fully_vested_at(recipient: AccountKey, mint: AccountKey, amount: u64, timestamp: i64) -> StreamflowStream {
        Self::new(recipient, mint)
            .deposited_amount(amount)
            .vesting_period(timestamp - 2000, timestamp - 1000) // Ended in past
            .build()
    }

    /// Create a stream that's 50% vested at the given timestamp
    pub fn half_vested_at(recipient: AccountKey, mint: AccountKey, amount: u64, timestamp: i64) -> StreamflowStream {
        let duration = 1000i64;
        Self::new(recipient, mint)
            .deposited_amount(amount)
            .vesting_period(timestamp - duration / 2, timestamp + duration / 2)
            .cliff_time(timestamp - duration / 2)
            .build()
    }

    /// Create a stream with custom vesting percentage at the given timestamp
    pub fn vested_percentage_at(
        recipient: AccountKey, 
        mint: AccountKey, 
        amount: u64, 
        timestamp: i64, 
        vested_percentage: f64
    ) -> StreamflowStream {
        let duration = 1000i64;
        let start_time = timestamp - (duration as f64 * vested_percentage) as i64;
        let end_time = start_time + duration;
        
        Self::new(recipient, mint)
            .deposited_amount(amount)
            .vesting_period(start_time, end_time)
            .cliff_time(start_time)
            .build()
    }
}


#[test]
fn test_mock_builder() {
    let recipient = key(32);
    let mint = key(33);
    
    let stream = MockStreamflowBuilder::new(recipient, mint)
        .deposited_amount(500_000)
        .withdrawn_amount(50_000)
        .vesting_period(1000, 2000)
        .cliff_time(1100)
        .build();

    assert_eq!(stream.recipient, recipient);
    assert_eq!(stream.mint, mint);
    assert_eq!(stream.deposited_amount, 500_000);
    assert_eq!(stream.withdrawn_amount, 50_000);
    assert_eq!(stream.start_time, 1000);
    assert_eq!(stream.end_time, 2000);
    assert_eq!(stream.cliff_time, 1100);
}

#[test]
fn test_convenience_builders() {
    let recipient = key(34);
    let mint = key(35);
    let timestamp = 1500i64;
    let amount = 1_000_000u64;

    // Test fully locked
    let locked_stream = MockStreamflowBuilder::fully_locked_at(recipient, mint, amount, timestamp);
    let locked_amount = StreamflowIntegration::calculate_locked_amount(&locked_stream, timestamp).unwrap();
    assert_eq!(locked_amount, amount);

    // Test fully vested
    let vested_stream = MockStreamflowBuilder::fully_vested_at(recipient, mint, amount, timestamp);
    let locked_amount = StreamflowIntegration::calculate_locked_amount(&vested_stream, timestamp).unwrap();
    assert_eq!(locked_amount, 0);

    // Test half vested
    let half_stream = MockStreamflowBuilder::half_vested_at(recipient, mint, amount, timestamp);
    let locked_amount = StreamflowIntegration::calculate_locked_amount(&half_stream, timestamp).unwrap();
    assert_eq!(locked_amount, amount / 2);
}
