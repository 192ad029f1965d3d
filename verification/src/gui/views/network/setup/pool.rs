//! The settings of the transaction pool.

use vstd::prelude::*;
use crate::gui::views::input::{parse_unsigned, same_text, spec_parse_unsigned};
use crate::gui::views::modal::Modal;
use crate::gui::views::types::{ModalPosition, ModalState};

verus! {

/// The identifier of the window for the base fee.
pub const FEE_BASE_MODAL: &'static str = "fee_base";

/// The identifier of the window for the time that reorganised data is kept.
pub const REORG_PERIOD_MODAL: &'static str = "reorg_period";

/// The identifier of the window for the size of the pool.
pub const POOL_SIZE_MODAL: &'static str = "pool_size";

/// The identifier of the window for the size of the stem pool.
pub const STEMPOOL_SIZE_MODAL: &'static str = "stempool_size";

/// The identifier of the window for the weight of a block's transactions.
pub const MAX_WEIGHT_MODAL: &'static str = "max_weight";

/// A setting of the pool.
#[derive(Clone, Copy, Debug, PartialEq, Eq, Structural)]
pub enum PoolField {
    /// The base fee that the pool accepts.
    FeeBase,
    /// The minutes that reorganised data is kept.
    ReorgPeriod,
    /// The number of transactions that the pool holds at most.
    PoolSize,
    /// The number of transactions that the stem pool holds at most.
    StempoolSize,
    /// The weight of the transactions of a block at most.
    MaxWeight,
}

impl PoolField {
    /// The identifier of the window in which the setting is typed.
    pub open spec fn spec_modal_id(self) -> &'static str {
        match self {
            PoolField::FeeBase => FEE_BASE_MODAL,
            PoolField::ReorgPeriod => REORG_PERIOD_MODAL,
            PoolField::PoolSize => POOL_SIZE_MODAL,
            PoolField::StempoolSize => STEMPOOL_SIZE_MODAL,
            PoolField::MaxWeight => MAX_WEIGHT_MODAL,
        }
    }

    /// The largest value of the setting: that of 64 bits for the fee and the
    /// weight, of 32 bits for the minutes, and of the machine's word for the
    /// sizes.
    pub open spec fn spec_max(self) -> nat {
        match self {
            PoolField::FeeBase => u64::MAX as nat,
            PoolField::ReorgPeriod => u32::MAX as nat,
            PoolField::PoolSize => usize::MAX as nat,
            PoolField::StempoolSize => usize::MAX as nat,
            PoolField::MaxWeight => u64::MAX as nat,
        }
    }

    /// The setting that is typed in the window `id`, if it is the window of
    /// one.
    pub open spec fn spec_for_modal(id: Seq<char>) -> Option<PoolField> {
        if id == FEE_BASE_MODAL@ {
            Some(PoolField::FeeBase)
        } else if id == REORG_PERIOD_MODAL@ {
            Some(PoolField::ReorgPeriod)
        } else if id == POOL_SIZE_MODAL@ {
            Some(PoolField::PoolSize)
        } else if id == STEMPOOL_SIZE_MODAL@ {
            Some(PoolField::StempoolSize)
        } else if id == MAX_WEIGHT_MODAL@ {
            Some(PoolField::MaxWeight)
        } else {
            None
        }
    }

    /// The setting that is typed in the window `id`, if it is the window of
    /// one.
    pub fn for_modal(id: &str) -> (field: Option<PoolField>)
        ensures
            field == Self::spec_for_modal(id@),
    {
        if same_text(id, FEE_BASE_MODAL) {
            Some(PoolField::FeeBase)
        } else if same_text(id, REORG_PERIOD_MODAL) {
            Some(PoolField::ReorgPeriod)
        } else if same_text(id, POOL_SIZE_MODAL) {
            Some(PoolField::PoolSize)
        } else if same_text(id, STEMPOOL_SIZE_MODAL) {
            Some(PoolField::StempoolSize)
        } else if same_text(id, MAX_WEIGHT_MODAL) {
            Some(PoolField::MaxWeight)
        } else {
            None
        }
    }

    /// Each setting has a window of its own: the window of a setting leads
    /// back to that setting.
    pub proof fn lemma_window_of_its_own(field: PoolField)
        ensures
            Self::spec_for_modal(field.spec_modal_id()@) == Some(field),
    {
        reveal_strlit("fee_base");
        reveal_strlit("reorg_period");
        reveal_strlit("pool_size");
        reveal_strlit("stempool_size");
        reveal_strlit("max_weight");
        assert("fee_base"@.len() == 8);
        assert("reorg_period"@.len() == 12);
        assert("pool_size"@.len() == 9);
        assert("stempool_size"@.len() == 13);
        assert("max_weight"@.len() == 10);
    }

    /// The identifier of the window in which the setting is typed.
    pub fn modal_id(&self) -> (id: &'static str)
        ensures
            id == self.spec_modal_id(),
    {
        match *self {
            PoolField::FeeBase => FEE_BASE_MODAL,
            PoolField::ReorgPeriod => REORG_PERIOD_MODAL,
            PoolField::PoolSize => POOL_SIZE_MODAL,
            PoolField::StempoolSize => STEMPOOL_SIZE_MODAL,
            PoolField::MaxWeight => MAX_WEIGHT_MODAL,
        }
    }

    /// The largest value of the setting.
    pub fn max(&self) -> (max: u64)
        ensures
            max == self.spec_max(),
    {
        match *self {
            PoolField::FeeBase => u64::MAX,
            PoolField::ReorgPeriod => u32::MAX as u64,
            PoolField::PoolSize => usize::MAX as u64,
            PoolField::StempoolSize => usize::MAX as u64,
            PoolField::MaxWeight => u64::MAX,
        }
    }
}

/// What the section with the settings of the pool holds: each value as it
/// was typed.
pub struct PoolSetup {
    /// The base fee that the pool accepts.
    pub fee_base_edit: String,
    /// The minutes that reorganised data is kept.
    pub reorg_period_edit: String,
    /// The number of transactions that the pool holds at most.
    pub pool_size_edit: String,
    /// The number of transactions that the stem pool holds at most.
    pub stempool_size_edit: String,
    /// The weight of the transactions of a block at most.
    pub max_weight_edit: String,
}

impl PoolSetup {
    /// The section for a pool with these settings.
    pub fn new(
        fee_base: String,
        reorg_period: String,
        pool_size: String,
        stempool_size: String,
        max_weight: String,
    ) -> (setup: PoolSetup)
        ensures
            setup == (PoolSetup {
                fee_base_edit: fee_base,
                reorg_period_edit: reorg_period,
                pool_size_edit: pool_size,
                stempool_size_edit: stempool_size,
                max_weight_edit: max_weight,
            }),
    {
        PoolSetup {
            fee_base_edit: fee_base,
            reorg_period_edit: reorg_period,
            pool_size_edit: pool_size,
            stempool_size_edit: stempool_size,
            max_weight_edit: max_weight,
        }
    }

    /// The identifiers of the windows of this section.
    pub fn modal_ids(&self) -> (ids: Vec<&'static str>)
        ensures
            ids@ == seq![
                FEE_BASE_MODAL,
                REORG_PERIOD_MODAL,
                POOL_SIZE_MODAL,
                STEMPOOL_SIZE_MODAL,
                MAX_WEIGHT_MODAL,
            ],
    {
        vec![
            FEE_BASE_MODAL,
            REORG_PERIOD_MODAL,
            POOL_SIZE_MODAL,
            STEMPOOL_SIZE_MODAL,
            MAX_WEIGHT_MODAL,
        ]
    }

    /// What was typed for `field`.
    pub open spec fn spec_edit(self, field: PoolField) -> String {
        match field {
            PoolField::FeeBase => self.fee_base_edit,
            PoolField::ReorgPeriod => self.reorg_period_edit,
            PoolField::PoolSize => self.pool_size_edit,
            PoolField::StempoolSize => self.stempool_size_edit,
            PoolField::MaxWeight => self.max_weight_edit,
        }
    }

    /// What was typed for `field`.
    pub fn edit(&self, field: PoolField) -> (typed: &String)
        ensures
            *typed == self.spec_edit(field),
    {
        match field {
            PoolField::FeeBase => &self.fee_base_edit,
            PoolField::ReorgPeriod => &self.reorg_period_edit,
            PoolField::PoolSize => &self.pool_size_edit,
            PoolField::StempoolSize => &self.stempool_size_edit,
            PoolField::MaxWeight => &self.max_weight_edit,
        }
    }

    /// Opens the window for `field`: what is typed starts as `saved`, and
    /// nothing else that was typed changes.
    pub fn begin_edit(
        &mut self,
        state: &mut ModalState,
        field: PoolField,
        saved: String,
        title: String,
    )
        ensures
            final(self).spec_edit(field) == saved,
            forall|other: PoolField|
                other != field ==> #[trigger] final(self).spec_edit(other) == old(self).spec_edit(
                    other,
                ),
            Modal::shows_new(
                *final(state),
                *old(state),
                field.spec_modal_id(),
                ModalPosition::CenterTop,
                title@,
            ),
    {
        match field {
            PoolField::FeeBase => {
                self.fee_base_edit = saved;
            },
            PoolField::ReorgPeriod => {
                self.reorg_period_edit = saved;
            },
            PoolField::PoolSize => {
                self.pool_size_edit = saved;
            },
            PoolField::StempoolSize => {
                self.stempool_size_edit = saved;
            },
            PoolField::MaxWeight => {
                self.max_weight_edit = saved;
            },
        }
        Modal::open(state, field.modal_id(), ModalPosition::CenterTop, title);
    }

    /// The value that was typed for `field`, if it is one.
    pub open spec fn spec_typed(self, field: PoolField) -> Option<nat> {
        spec_parse_unsigned(self.spec_edit(field)@, field.spec_max())
    }

    /// The value that was typed for `field`, if it is one.
    pub fn typed(&self, field: PoolField) -> (value: Option<u64>)
        ensures
            match self.spec_typed(field) {
                Some(n) => value == Some(n as u64),
                None => value is None,
            },
    {
        parse_unsigned(self.edit(field).as_str(), field.max())
    }

    /// Takes the value that was typed for `field` as the one to save, and the
    /// window off the screen. What is no value changes nothing.
    pub fn save(&self, state: &mut ModalState, field: PoolField) -> (value: Option<u64>)
        ensures
            match self.spec_typed(field) {
                Some(n) => value == Some(n as u64) && final(state).modal is None && (final(state).closeable
                    == old(state).closeable),
                None => value is None && *final(state) == *old(state),
            },
    {
        let value = self.typed(field);
        if value.is_some() {
            state.modal = None;
        }
        value
    }
}

} // verus!
