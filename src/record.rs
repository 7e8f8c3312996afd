//! The two record kinds. Every field is text, already formatted for display
//! by the store; the first field is the row's identifier.
use vstd::prelude::*;

verus! {

/// Number of fields of a record, of either kind.
pub const FIELD_COUNT: usize = 19;

/// A row of the primary table (market-making volume tasks).
#[derive(Clone, Debug, PartialEq, Eq)]
pub struct MmVolumeTask {
    pub id: String,
    pub launch_id: String,
    pub token_add: String,
    pub target_volume: String,
    pub do_status: String,
    pub use_wallet_type: String,
    pub remark: String,
    pub buy_rate: String,
    pub buy_per_low: String,
    pub buy_per_high: String,
    pub sell_percent: String,
    pub frequent_low: String,
    pub frequent_high: String,
    pub real_sol: String,
    pub create_time: String,
    pub update_time: String,
    pub col1: String,
    pub col2: String,
    pub col3: String,
}

/// A row of the secondary table (DEX volume tasks). Its last two fields hold
/// the captions of the copy and delete triggers.
#[derive(Clone, Debug, PartialEq, Eq)]
pub struct DexVolumeTask {
    pub id: String,
    pub pool_id: String,
    pub token_add: String,
    pub mm_type: String,
    pub remark: String,
    pub target_price: String,
    pub stop_price_per: String,
    pub do_status: String,
    pub buy_rate: String,
    pub buy_per_low: String,
    pub buy_per_high: String,
    pub sell_percent: String,
    pub frequent_low: String,
    pub frequent_high: String,
    pub bsdiff: String,
    pub create_time: String,
    pub update_time: String,
    pub copy: String,
    pub del: String,
}

/// A record is seen as the sequence of its field texts, in column order.
impl View for MmVolumeTask {
    type V = Seq<Seq<char>>;

    open spec fn view(&self) -> Seq<Seq<char>> {
        seq![
            self.id@, self.launch_id@, self.token_add@, self.target_volume@,
            self.do_status@, self.use_wallet_type@, self.remark@, self.buy_rate@,
            self.buy_per_low@, self.buy_per_high@, self.sell_percent@,
            self.frequent_low@, self.frequent_high@, self.real_sol@,
            self.create_time@, self.update_time@, self.col1@, self.col2@, self.col3@,
        ]
    }
}

impl View for DexVolumeTask {
    type V = Seq<Seq<char>>;

    open spec fn view(&self) -> Seq<Seq<char>> {
        seq![
            self.id@, self.pool_id@, self.token_add@, self.mm_type@, self.remark@,
            self.target_price@, self.stop_price_per@, self.do_status@, self.buy_rate@,
            self.buy_per_low@, self.buy_per_high@, self.sell_percent@,
            self.frequent_low@, self.frequent_high@, self.bsdiff@,
            self.create_time@, self.update_time@, self.copy@, self.del@,
        ]
    }
}

/// Record views of a primary dataset.
pub open spec fn mm_rows(items: Seq<MmVolumeTask>) -> Seq<Seq<Seq<char>>> {
    items.map_values(|t: MmVolumeTask| t@)
}

/// Record views of a secondary dataset.
pub open spec fn dex_rows(items: Seq<DexVolumeTask>) -> Seq<Seq<Seq<char>>> {
    items.map_values(|t: DexVolumeTask| t@)
}

impl MmVolumeTask {
    /// All fields, in column order.
    pub fn ref_array(&self) -> (r: [&String; 19])
        ensures
            forall|i: int| 0 <= i < 19 ==> (#[trigger] r@[i])@ == self@[i],
    {
        [
            &self.id,
            &self.launch_id,
            &self.token_add,
            &self.target_volume,
            &self.do_status,
            &self.use_wallet_type,
            &self.remark,
            &self.buy_rate,
            &self.buy_per_low,
            &self.buy_per_high,
            &self.sell_percent,
            &self.frequent_low,
            &self.frequent_high,
            &self.real_sol,
            &self.create_time,
            &self.update_time,
            &self.col1,
            &self.col2,
            &self.col3,
        ]
    }

    /// The field shown in column `col`.
    pub fn field(&self, col: usize) -> (r: &String)
        requires
            col < FIELD_COUNT,
        ensures
            r@ == self@[col as int],
    {
        let fields = self.ref_array();
        fields[col]
    }

    pub fn id(&self) -> (r: &str)
        ensures
            r@ == self.id@,
    {
        self.id.as_str()
    }

    pub fn launch_id(&self) -> (r: &str)
        ensures
            r@ == self.launch_id@,
    {
        self.launch_id.as_str()
    }

    pub fn token_add(&self) -> (r: &str)
        ensures
            r@ == self.token_add@,
    {
        self.token_add.as_str()
    }

    pub fn target_volume(&self) -> (r: &str)
        ensures
            r@ == self.target_volume@,
    {
        self.target_volume.as_str()
    }

    pub fn do_status(&self) -> (r: &str)
        ensures
            r@ == self.do_status@,
    {
        self.do_status.as_str()
    }

    pub fn use_wallet_type(&self) -> (r: &str)
        ensures
            r@ == self.use_wallet_type@,
    {
        self.use_wallet_type.as_str()
    }

    pub fn remark(&self) -> (r: &str)
        ensures
            r@ == self.remark@,
    {
        self.remark.as_str()
    }

    pub fn buy_rate(&self) -> (r: &str)
        ensures
            r@ == self.buy_rate@,
    {
        self.buy_rate.as_str()
    }

    pub fn buy_per_low(&self) -> (r: &str)
        ensures
            r@ == self.buy_per_low@,
    {
        self.buy_per_low.as_str()
    }

    pub fn buy_per_high(&self) -> (r: &str)
        ensures
            r@ == self.buy_per_high@,
    {
        self.buy_per_high.as_str()
    }

    pub fn sell_percent(&self) -> (r: &str)
        ensures
            r@ == self.sell_percent@,
    {
        self.sell_percent.as_str()
    }

    pub fn frequent_low(&self) -> (r: &str)
        ensures
            r@ == self.frequent_low@,
    {
        self.frequent_low.as_str()
    }

    pub fn frequent_high(&self) -> (r: &str)
        ensures
            r@ == self.frequent_high@,
    {
        self.frequent_high.as_str()
    }

    pub fn real_sol(&self) -> (r: &str)
        ensures
            r@ == self.real_sol@,
    {
        self.real_sol.as_str()
    }

    pub fn create_time(&self) -> (r: &str)
        ensures
            r@ == self.create_time@,
    {
        self.create_time.as_str()
    }

    pub fn update_time(&self) -> (r: &str)
        ensures
            r@ == self.update_time@,
    {
        self.update_time.as_str()
    }
}

impl DexVolumeTask {
    /// All fields, in column order.
    pub fn ref_array(&self) -> (r: [&String; 19])
        ensures
            forall|i: int| 0 <= i < 19 ==> (#[trigger] r@[i])@ == self@[i],
    {
        [
            &self.id,
            &self.pool_id,
            &self.token_add,
            &self.mm_type,
            &self.remark,
            &self.target_price,
            &self.stop_price_per,
            &self.do_status,
            &self.buy_rate,
            &self.buy_per_low,
            &self.buy_per_high,
            &self.sell_percent,
            &self.frequent_low,
            &self.frequent_high,
            &self.bsdiff,
            &self.create_time,
            &self.update_time,
            &self.copy,
            &self.del,
        ]
    }

    /// The field shown in column `col`.
    pub fn field(&self, col: usize) -> (r: &String)
        requires
            col < FIELD_COUNT,
        ensures
            r@ == self@[col as int],
    {
        let fields = self.ref_array();
        fields[col]
    }

    pub fn id(&self) -> (r: &str)
        ensures
            r@ == self.id@,
    {
        self.id.as_str()
    }

    pub fn pool_id(&self) -> (r: &str)
        ensures
            r@ == self.pool_id@,
    {
        self.pool_id.as_str()
    }

    pub fn token_add(&self) -> (r: &str)
        ensures
            r@ == self.token_add@,
    {
        self.token_add.as_str()
    }

    pub fn mm_type(&self) -> (r: &str)
        ensures
            r@ == self.mm_type@,
    {
        self.mm_type.as_str()
    }

    pub fn remark(&self) -> (r: &str)
        ensures
            r@ == self.remark@,
    {
        self.remark.as_str()
    }

    pub fn target_price(&self) -> (r: &str)
        ensures
            r@ == self.target_price@,
    {
        self.target_price.as_str()
    }

    pub fn stop_price_per(&self) -> (r: &str)
        ensures
            r@ == self.stop_price_per@,
    {
        self.stop_price_per.as_str()
    }

    pub fn do_status(&self) -> (r: &str)
        ensures
            r@ == self.do_status@,
    {
        self.do_status.as_str()
    }

    pub fn buy_rate(&self) -> (r: &str)
        ensures
            r@ == self.buy_rate@,
    {
        self.buy_rate.as_str()
    }

    pub fn buy_per_low(&self) -> (r: &str)
        ensures
            r@ == self.buy_per_low@,
    {
        self.buy_per_low.as_str()
    }

    pub fn buy_per_high(&self) -> (r: &str)
        ensures
            r@ == self.buy_per_high@,
    {
        self.buy_per_high.as_str()
    }

    pub fn sell_percent(&self) -> (r: &str)
        ensures
            r@ == self.sell_percent@,
    {
        self.sell_percent.as_str()
    }

    pub fn frequent_low(&self) -> (r: &str)
        ensures
            r@ == self.frequent_low@,
    {
        self.frequent_low.as_str()
    }

    pub fn frequent_high(&self) -> (r: &str)
        ensures
            r@ == self.frequent_high@,
    {
        self.frequent_high.as_str()
    }

    pub fn bsdiff(&self) -> (r: &str)
        ensures
            r@ == self.bsdiff@,
    {
        self.bsdiff.as_str()
    }

    pub fn create_time(&self) -> (r: &str)
        ensures
            r@ == self.create_time@,
    {
        self.create_time.as_str()
    }

    pub fn update_time(&self) -> (r: &str)
        ensures
            r@ == self.update_time@,
    {
        self.update_time.as_str()
    }

    pub fn copy(&self) -> (r: &str)
        ensures
            r@ == self.copy@,
    {
        self.copy.as_str()
    }

    pub fn del(&self) -> (r: &str)
        ensures
            r@ == self.del@,
    {
        self.del.as_str()
    }
}

} // verus!
