//! Keeper-facing liquidation decisions for the shared pool.
//!
//! A liquidation reads, in this order, the borrower's health factor, the
//! borrower's debt in the repaid asset, the two oracle prices, the collateral
//! market's config and the borrower's collateral balance. Each step below takes
//! what was read so far and either stops with an error or lets the next read
//! happen; `execute_liquidation` is the whole decision over all the reads.
use vstd::prelude::*;
use crate::core_pool::MarketConfig;
use crate::ids::Addr;
use crate::math::{
    checked_wad_div, checked_wad_mul, fits, wad_div, wad_div_ok, wad_div_spec, wad_mul, wad_mul_ok,
    wad_mul_spec, WAD,
};

verus! {

/// What a keeper sees before liquidating.
#[derive(Clone, Copy, Debug, PartialEq, Eq, Structural)]
pub struct LiquidationPreview {
    pub is_liquidatable: bool,
    pub health_factor: i128,
    pub max_repay_amount: i128,
    pub estimated_collateral_seized: i128,
}

#[derive(Clone, Copy, Debug, PartialEq, Eq, Structural)]
pub enum LiquidationError {
    AlreadyInitialized,
    NotInitialized,
    Unauthorized,
    PositionHealthy,
    RepayExceedsCloseFactor,
    NoDebt,
    CollateralNotEnabled,
    InsufficientCollateral,
    SlippageExceeded,
    DeadlineExpired,
    DuplicateOperation,
    PoolCallFailed,
    OracleCallFailed,
}

/// What the pool and the oracle report about one position.
#[derive(Clone, Copy, Debug, PartialEq, Eq, Structural)]
pub struct PositionReads {
    pub health_factor: i128,
    pub debt: i128,
    pub debt_price: i128,
    pub collateral_price: i128,
    pub collateral_config: Option<MarketConfig>,
    pub collateral_balance: i128,
}

/// A close factor is a fraction in (0, WAD].
pub open spec fn close_factor_valid(cf: int) -> bool {
    0 < cf <= WAD
}

/// Collateral owed for repaying `repay` of debt: the repaid value, plus the
/// liquidation bonus, in collateral units.
pub open spec fn seizure_spec(repay: int, debt_price: int, collateral_price: int, bonus: int) -> int {
    wad_div_spec(wad_mul_spec(wad_mul_spec(repay, debt_price), WAD + bonus), collateral_price)
}

pub open spec fn seizure_ok(repay: int, debt_price: int, collateral_price: int, bonus: int) -> bool {
    let value = wad_mul_spec(repay, debt_price);
    &&& wad_mul_ok(repay, debt_price)
    &&& fits(WAD + bonus)
    &&& wad_mul_ok(value, WAD + bonus)
    &&& wad_div_ok(wad_mul_spec(value, WAD + bonus), collateral_price)
}

/// The seizure for `repay`, or the error for a collateral market the pool does
/// not list.
pub open spec fn seizure_result(repay: int, reads: PositionReads) -> Result<int, LiquidationError> {
    match reads.collateral_config {
        None => Err(LiquidationError::CollateralNotEnabled),
        Some(c) => Ok(
            seizure_spec(
                repay,
                reads.debt_price as int,
                reads.collateral_price as int,
                c.liquidation_bonus as int,
            ),
        ),
    }
}

/// The stored configuration of the engine.
pub struct LiquidationEngineContract {
    pub initialized: bool,
    pub admin: Option<Addr>,
    pub core_pool: Option<Addr>,
    pub oracle_adapter: Option<Addr>,
    pub close_factor: Option<i128>,
}

impl LiquidationEngineContract {
    pub open spec fn wf(&self) -> bool {
        self.initialized ==> {
            &&& self.admin is Some
            &&& self.core_pool is Some
            &&& self.oracle_adapter is Some
            &&& self.close_factor is Some
            &&& close_factor_valid(self.close_factor->0 as int)
        }
    }

    pub open spec fn cf(&self) -> int {
        self.close_factor->0 as int
    }

    /// What a liquidation of `repay` does, given the reads and the keeper's
    /// seizure limit: the collateral seized, or the first check that fails.
    pub open spec fn liquidation_result(
        &self,
        repay: int,
        reads: PositionReads,
        max_collateral_seized: Option<i128>,
    ) -> Result<int, LiquidationError> {
        if !self.initialized {
            Err(LiquidationError::NotInitialized)
        } else if repay <= 0 {
            Err(LiquidationError::NoDebt)
        } else if reads.health_factor >= WAD {
            Err(LiquidationError::PositionHealthy)
        } else if reads.debt == 0 {
            Err(LiquidationError::NoDebt)
        } else if repay > wad_mul_spec(reads.debt as int, self.cf()) {
            Err(LiquidationError::RepayExceedsCloseFactor)
        } else {
            match seizure_result(repay, reads) {
                Err(e) => Err(e),
                Ok(seized) => if max_collateral_seized matches Some(m) && seized > m {
                    Err(LiquidationError::SlippageExceeded)
                } else if seized > reads.collateral_balance {
                    Err(LiquidationError::InsufficientCollateral)
                } else {
                    Ok(seized)
                },
            }
        }
    }

    /// What a liquidation with a deadline and a nonce does: expired deadlines and
    /// used nonces are refused before anything else.
    pub open spec fn limits_result(
        &self,
        now: u64,
        deadline: u64,
        nonce_used: bool,
        repay: int,
        reads: PositionReads,
        max_collateral_seized: i128,
    ) -> Result<int, LiquidationError> {
        if now > deadline {
            Err(LiquidationError::DeadlineExpired)
        } else if nonce_used {
            Err(LiquidationError::DuplicateOperation)
        } else {
            self.liquidation_result(repay, reads, Some(max_collateral_seized))
        }
    }

    /// Once a liquidation reaches its arithmetic, none of it overflows.
    pub open spec fn liquidation_ok(&self, repay: int, reads: PositionReads) -> bool {
        self.initialized && repay > 0 && reads.health_factor < WAD && reads.debt != 0 ==> {
            &&& wad_mul_ok(reads.debt as int, self.cf())
            &&& repay <= wad_mul_spec(reads.debt as int, self.cf())
                && reads.collateral_config is Some ==> seizure_ok(
                repay,
                reads.debt_price as int,
                reads.collateral_price as int,
                reads.collateral_config->0.liquidation_bonus as int,
            )
        }
    }

    /// Nothing stored yet.
    pub fn fresh() -> (r: Self)
        ensures
            !r.initialized && r.admin is None && r.core_pool is None && r.oracle_adapter is None
                && r.close_factor is None,
            r.wf(),
    {
        LiquidationEngineContract {
            initialized: false,
            admin: None,
            core_pool: None,
            oracle_adapter: None,
            close_factor: None,
        }
    }

    /// Configure the engine once.
    pub fn initialize(
        &mut self,
        admin: Addr,
        core_pool: Addr,
        oracle_adapter: Addr,
        close_factor: i128,
    ) -> (r: Result<(), LiquidationError>)
        requires
            old(self).wf(),
        ensures
            final(self).wf(),
            r == (if old(self).initialized {
                Err(LiquidationError::AlreadyInitialized)
            } else if !close_factor_valid(close_factor as int) {
                Err(LiquidationError::RepayExceedsCloseFactor)
            } else {
                Ok(())
            }),
            r is Ok ==> *final(self) == (LiquidationEngineContract {
                initialized: true,
                admin: Some(admin),
                core_pool: Some(core_pool),
                oracle_adapter: Some(oracle_adapter),
                close_factor: Some(close_factor),
            }),
            r is Err ==> *final(self) == *old(self),
    {
        if self.initialized {
            return Err(LiquidationError::AlreadyInitialized);
        }
        validate_close_factor(close_factor)?;
        self.admin = Some(admin);
        self.core_pool = Some(core_pool);
        self.oracle_adapter = Some(oracle_adapter);
        self.close_factor = Some(close_factor);
        self.initialized = true;
        Ok(())
    }

    /// The pool, the oracle and the close factor of an initialised engine.
    pub fn load_config(&self) -> (r: Result<(Addr, Addr, i128), LiquidationError>)
        requires
            self.wf(),
        ensures
            !self.initialized ==> r == Err::<(Addr, Addr, i128), _>(LiquidationError::NotInitialized),
            self.initialized ==> r == Ok::<(Addr, Addr, i128), LiquidationError>(
                (self.core_pool->0, self.oracle_adapter->0, self.close_factor->0),
            ),
    {
        if !self.initialized {
            return Err(LiquidationError::NotInitialized);
        }
        let core_pool = match self.core_pool {
            Some(a) => a,
            None => return Err(LiquidationError::NotInitialized),
        };
        let oracle = match self.oracle_adapter {
            Some(a) => a,
            None => return Err(LiquidationError::NotInitialized),
        };
        let close_factor = match self.close_factor {
            Some(c) => c,
            None => return Err(LiquidationError::NotInitialized),
        };
        Ok((core_pool, oracle, close_factor))
    }

    /// The admin who must authorise an admin call.
    pub fn require_admin(&self) -> (r: Result<Addr, LiquidationError>)
        requires
            self.wf(),
        ensures
            !self.initialized ==> r == Err::<Addr, _>(LiquidationError::NotInitialized),
            self.initialized ==> r == Ok::<Addr, LiquidationError>(self.admin->0),
    {
        if !self.initialized {
            return Err(LiquidationError::NotInitialized);
        }
        match self.admin {
            Some(a) => Ok(a),
            None => Err(LiquidationError::NotInitialized),
        }
    }

    /// First step of a liquidation: the engine is set up and the repayment is
    /// positive. Returns the close factor.
    pub fn begin_liquidation(&self, repay_amount: i128) -> (r: Result<i128, LiquidationError>)
        requires
            self.wf(),
        ensures
            r == (if !self.initialized {
                Err(LiquidationError::NotInitialized)
            } else if repay_amount <= 0 {
                Err(LiquidationError::NoDebt)
            } else {
                Ok(self.close_factor->0)
            }),
    {
        if !self.initialized {
            return Err(LiquidationError::NotInitialized);
        }
        if repay_amount <= 0 {
            return Err(LiquidationError::NoDebt);
        }
        let (_, _, close_factor) = self.load_config()?;
        Ok(close_factor)
    }

    /// The whole liquidation decision over the reads; returns the collateral to
    /// seize.
    pub fn execute_liquidation(
        &self,
        repay_amount: i128,
        reads: PositionReads,
        max_collateral_seized: Option<i128>,
    ) -> (r: Result<i128, LiquidationError>)
        requires
            self.wf(),
            self.liquidation_ok(repay_amount as int, reads),
        ensures
            match self.liquidation_result(repay_amount as int, reads, max_collateral_seized) {
                Ok(seized) => r is Ok && r->Ok_0 == seized,
                Err(e) => r == Err::<i128, LiquidationError>(e),
            },
    {
        let close_factor = self.begin_liquidation(repay_amount)?;
        require_unhealthy(reads.health_factor)?;
        max_repay_for(reads.debt, close_factor, repay_amount)?;
        let seized = collateral_for_repay(
            repay_amount,
            reads.debt_price,
            reads.collateral_price,
            reads.collateral_config,
        )?;
        check_seizure(seized, max_collateral_seized, reads.collateral_balance)?;
        Ok(seized)
    }

    /// A liquidation with no bound on the collateral seized; returns the
    /// collateral to seize.
    pub fn liquidate(&self, repay_amount: i128, reads: PositionReads) -> (r: Result<i128, LiquidationError>)
        requires
            self.wf(),
            self.liquidation_ok(repay_amount as int, reads),
        ensures
            match self.liquidation_result(repay_amount as int, reads, None) {
                Ok(seized) => r is Ok && r->Ok_0 == seized,
                Err(e) => r == Err::<i128, LiquidationError>(e),
            },
    {
        self.execute_liquidation(repay_amount, reads, None)
    }

    /// A liquidation with a keeper deadline and a single-use nonce. On success
    /// the nonce is marked used.
    pub fn liquidate_with_limits(
        &self,
        now: u64,
        deadline: u64,
        nonce_used: &mut bool,
        repay_amount: i128,
        reads: PositionReads,
        max_collateral_seized: i128,
    ) -> (r: Result<i128, LiquidationError>)
        requires
            self.wf(),
            now <= deadline && !*old(nonce_used) ==> self.liquidation_ok(repay_amount as int, reads),
        ensures
            match self.limits_result(
                now,
                deadline,
                *old(nonce_used),
                repay_amount as int,
                reads,
                max_collateral_seized,
            ) {
                Ok(seized) => r is Ok && r->Ok_0 == seized,
                Err(e) => r == Err::<i128, LiquidationError>(e),
            },
            r is Ok ==> *final(nonce_used),
            r is Err ==> *final(nonce_used) == *old(nonce_used),
    {
        if now > deadline {
            return Err(LiquidationError::DeadlineExpired);
        }
        if *nonce_used {
            return Err(LiquidationError::DuplicateOperation);
        }
        let seized = self.execute_liquidation(repay_amount, reads, Some(max_collateral_seized))?;
        *nonce_used = true;
        Ok(seized)
    }

    /// Preview a liquidation at the close factor: healthy positions report
    /// nothing to repay.
    pub fn check_liquidation(&self, reads: PositionReads) -> (r: Result<
        LiquidationPreview,
        LiquidationError,
    >)
        requires
            self.wf(),
            self.initialized && reads.health_factor < WAD ==> wad_mul_ok(
                reads.debt as int,
                self.cf(),
            ) && (reads.collateral_config is Some ==> seizure_ok(
                wad_mul_spec(reads.debt as int, self.cf()),
                reads.debt_price as int,
                reads.collateral_price as int,
                reads.collateral_config->0.liquidation_bonus as int,
            )),
        ensures
            !self.initialized ==> r == Err::<LiquidationPreview, _>(LiquidationError::NotInitialized),
            self.initialized && reads.health_factor >= WAD ==> r == Ok::<
                LiquidationPreview,
                LiquidationError,
            >(
                LiquidationPreview {
                    is_liquidatable: false,
                    health_factor: reads.health_factor,
                    max_repay_amount: 0,
                    estimated_collateral_seized: 0,
                },
            ),
            self.initialized && reads.health_factor < WAD ==> {
                let max_repay = wad_mul_spec(reads.debt as int, self.cf());
                match seizure_result(max_repay, reads) {
                    Err(e) => r == Err::<LiquidationPreview, LiquidationError>(e),
                    Ok(seized) => r is Ok && r->Ok_0.is_liquidatable && r->Ok_0.health_factor
                        == reads.health_factor && r->Ok_0.max_repay_amount == max_repay
                        && r->Ok_0.estimated_collateral_seized == seized,
                }
            },
    {
        let (_, _, close_factor) = self.load_config()?;
        if reads.health_factor >= WAD {
            return Ok(
                LiquidationPreview {
                    is_liquidatable: false,
                    health_factor: reads.health_factor,
                    max_repay_amount: 0,
                    estimated_collateral_seized: 0,
                },
            );
        }
        let max_repay = wad_mul(reads.debt, close_factor);
        let estimated = collateral_for_repay(
            max_repay,
            reads.debt_price,
            reads.collateral_price,
            reads.collateral_config,
        )?;
        Ok(
            LiquidationPreview {
                is_liquidatable: true,
                health_factor: reads.health_factor,
                max_repay_amount: max_repay,
                estimated_collateral_seized: estimated,
            },
        )
    }

    /// Replace the close factor (the admin authorises).
    pub fn set_close_factor(&mut self, close_factor: i128) -> (r: Result<(), LiquidationError>)
        requires
            old(self).wf(),
        ensures
            final(self).wf(),
            r == (if !old(self).initialized {
                Err(LiquidationError::NotInitialized)
            } else if !close_factor_valid(close_factor as int) {
                Err(LiquidationError::RepayExceedsCloseFactor)
            } else {
                Ok(())
            }),
            r is Ok ==> *final(self) == (LiquidationEngineContract {
                close_factor: Some(close_factor),
                ..*old(self)
            }),
            r is Err ==> *final(self) == *old(self),
    {
        self.require_admin()?;
        validate_close_factor(close_factor)?;
        self.close_factor = Some(close_factor);
        Ok(())
    }

    /// Hand admin rights to `new_admin` (the current admin authorises).
    pub fn transfer_admin(&mut self, new_admin: Addr) -> (r: Result<(), LiquidationError>)
        requires
            old(self).wf(),
        ensures
            final(self).wf(),
            !old(self).initialized ==> r == Err::<(), _>(LiquidationError::NotInitialized)
                && *final(self) == *old(self),
            old(self).initialized ==> r is Ok && *final(self) == (LiquidationEngineContract {
                admin: Some(new_admin),
                ..*old(self)
            }),
    {
        self.require_admin()?;
        self.admin = Some(new_admin);
        Ok(())
    }

    /// Whether the code may be upgraded (the admin authorises).
    pub fn upgrade(&self) -> (r: Result<(), LiquidationError>)
        requires
            self.wf(),
        ensures
            r == (if self.initialized {
                Ok(())
            } else {
                Err(LiquidationError::NotInitialized)
            }),
    {
        self.require_admin()?;
        Ok(())
    }

    pub fn admin(&self) -> (r: Option<Addr>)
        ensures
            r == self.admin,
    {
        self.admin
    }

    pub fn close_factor(&self) -> (r: Option<i128>)
        ensures
            r == self.close_factor,
    {
        self.close_factor
    }
}

/// A close factor must be a fraction in (0, WAD].
pub fn validate_close_factor(close_factor: i128) -> (r: Result<(), LiquidationError>)
    ensures
        r == (if close_factor_valid(close_factor as int) {
            Ok(())
        } else {
            Err(LiquidationError::RepayExceedsCloseFactor)
        }),
{
    if close_factor <= 0 || close_factor > WAD {
        return Err(LiquidationError::RepayExceedsCloseFactor);
    }
    Ok(())
}

/// Only a position with a health factor below 1 may be liquidated.
pub fn require_unhealthy(health_factor: i128) -> (r: Result<(), LiquidationError>)
    ensures
        r == (if health_factor >= WAD {
            Err(LiquidationError::PositionHealthy)
        } else {
            Ok(())
        }),
{
    if health_factor >= WAD {
        return Err(LiquidationError::PositionHealthy);
    }
    Ok(())
}

/// The most that may be repaid at once, `debt * close_factor`; the repayment
/// must not exceed it and there must be debt.
pub fn max_repay_for(debt: i128, close_factor: i128, repay_amount: i128) -> (r: Result<
    i128,
    LiquidationError,
>)
    requires
        debt != 0 ==> wad_mul_ok(debt as int, close_factor as int),
    ensures
        r == (if debt == 0 {
            Err(LiquidationError::NoDebt)
        } else if repay_amount > wad_mul_spec(debt as int, close_factor as int) {
            Err(LiquidationError::RepayExceedsCloseFactor)
        } else {
            Ok(wad_mul_spec(debt as int, close_factor as int) as i128)
        }),
{
    if debt == 0 {
        return Err(LiquidationError::NoDebt);
    }
    let max_repay = wad_mul(debt, close_factor);
    if repay_amount > max_repay {
        return Err(LiquidationError::RepayExceedsCloseFactor);
    }
    Ok(max_repay)
}

/// Collateral owed for repaying `repay_amount`:
/// `wad_div(wad_mul(wad_mul(repay, debt_price), WAD + bonus), collateral_price)`,
/// with the bonus of the collateral market.
pub fn collateral_for_repay(
    repay_amount: i128,
    debt_price: i128,
    collateral_price: i128,
    collateral_config: Option<MarketConfig>,
) -> (r: Result<i128, LiquidationError>)
    requires
        collateral_config is Some ==> seizure_ok(
            repay_amount as int,
            debt_price as int,
            collateral_price as int,
            collateral_config->0.liquidation_bonus as int,
        ),
    ensures
        match collateral_config {
            None => r == Err::<i128, _>(LiquidationError::CollateralNotEnabled),
            Some(c) => r is Ok && r->Ok_0 == seizure_spec(
                repay_amount as int,
                debt_price as int,
                collateral_price as int,
                c.liquidation_bonus as int,
            ),
        },
{
    let config = match collateral_config {
        Some(c) => c,
        None => return Err(LiquidationError::CollateralNotEnabled),
    };
    let debt_value = wad_mul(repay_amount, debt_price);
    let with_bonus = wad_mul(debt_value, WAD + config.liquidation_bonus);
    Ok(wad_div(with_bonus, collateral_price))
}

/// The seizure must respect the keeper's limit and the borrower's collateral.
pub fn check_seizure(seized: i128, max_collateral_seized: Option<i128>, collateral_balance: i128) -> (r:
    Result<(), LiquidationError>)
    ensures
        r == (if max_collateral_seized matches Some(m) && seized > m {
            Err(LiquidationError::SlippageExceeded)
        } else if seized > collateral_balance {
            Err(LiquidationError::InsufficientCollateral)
        } else {
            Ok(())
        }),
{
    match max_collateral_seized {
        Some(m) => {
            if seized > m {
                return Err(LiquidationError::SlippageExceeded);
            }
        },
        None => {},
    }
    if seized > collateral_balance {
        return Err(LiquidationError::InsufficientCollateral);
    }
    Ok(())
}


/// Whether the seizure for `repay` is computable.
pub fn seizure_computable(repay: i128, debt_price: i128, collateral_price: i128, bonus: i128) -> (b:
    bool)
    ensures
        b == seizure_ok(repay as int, debt_price as int, collateral_price as int, bonus as int),
{
    let value = match checked_wad_mul(repay, debt_price) {
        Some(v) => v,
        None => return false,
    };
    let factor = match WAD.checked_add(bonus) {
        Some(v) => v,
        None => return false,
    };
    let with_bonus = match checked_wad_mul(value, factor) {
        Some(v) => v,
        None => return false,
    };
    checked_wad_div(with_bonus, collateral_price).is_some()
}

impl LiquidationEngineContract {
    /// Whether a liquidation of `repay` runs on these reads without overflow.
    pub fn liquidation_computable(&self, repay: i128, reads: &PositionReads) -> (b: bool)
        requires
            self.wf(),
        ensures
            b == self.liquidation_ok(repay as int, *reads),
    {
        if !self.initialized || repay <= 0 || reads.health_factor >= WAD || reads.debt == 0 {
            return true;
        }
        let cf = match self.close_factor {
            Some(c) => c,
            None => return true,
        };
        let max_repay = match checked_wad_mul(reads.debt, cf) {
            Some(v) => v,
            None => return false,
        };
        if repay > max_repay {
            return true;
        }
        match reads.collateral_config {
            Some(c) => seizure_computable(
                repay,
                reads.debt_price,
                reads.collateral_price,
                c.liquidation_bonus,
            ),
            None => true,
        }
    }

    /// Whether a preview runs on these reads without overflow.
    pub fn check_computable(&self, reads: &PositionReads) -> (b: bool)
        requires
            self.wf(),
        ensures
            b == (self.initialized && reads.health_factor < WAD ==> wad_mul_ok(
                reads.debt as int,
                self.cf(),
            ) && (reads.collateral_config is Some ==> seizure_ok(
                wad_mul_spec(reads.debt as int, self.cf()),
                reads.debt_price as int,
                reads.collateral_price as int,
                reads.collateral_config->0.liquidation_bonus as int,
            ))),
    {
        if !self.initialized || reads.health_factor >= WAD {
            return true;
        }
        let cf = match self.close_factor {
            Some(c) => c,
            None => return true,
        };
        let max_repay = match checked_wad_mul(reads.debt, cf) {
            Some(v) => v,
            None => return false,
        };
        match reads.collateral_config {
            Some(c) => seizure_computable(
                max_repay,
                reads.debt_price,
                reads.collateral_price,
                c.liquidation_bonus,
            ),
            None => true,
        }
    }
}

/// A liquidation that succeeds had an unhealthy borrower with debt, repaid a
/// positive amount within the close factor (so never more than the debt),
/// seized exactly the bonus-adjusted value at the oracle price ratio, and stayed
/// within the keeper's limit and the borrower's collateral.
pub proof fn law_liquidation_bounds(
    engine: LiquidationEngineContract,
    repay: int,
    reads: PositionReads,
    max_collateral_seized: Option<i128>,
)
    requires
        engine.wf(),
        reads.debt >= 0,
        engine.liquidation_result(repay, reads, max_collateral_seized) is Ok,
    ensures
        ({
            let seized = engine.liquidation_result(repay, reads, max_collateral_seized)->Ok_0;
            &&& reads.health_factor < WAD
            &&& reads.debt > 0
            &&& 0 < repay <= wad_mul_spec(reads.debt as int, engine.cf()) <= reads.debt
            &&& reads.collateral_config is Some
            &&& seized == seizure_spec(
                repay,
                reads.debt_price as int,
                reads.collateral_price as int,
                reads.collateral_config->0.liquidation_bonus as int,
            )
            &&& seized <= reads.collateral_balance
            &&& max_collateral_seized matches Some(m) ==> seized <= m
        }),
{
    crate::math::lemma_wad_mul_fraction(reads.debt as int, engine.cf());
}

/// With positive prices and a non-negative bonus, the collateral seized grows
/// with the amount repaid and with the bonus, and is never negative.
pub proof fn law_seizure_monotone(
    r1: int,
    r2: int,
    debt_price: int,
    collateral_price: int,
    b1: int,
    b2: int,
)
    requires
        0 <= r1 <= r2,
        debt_price > 0,
        collateral_price > 0,
        0 <= b1 <= b2,
    ensures
        0 <= seizure_spec(r1, debt_price, collateral_price, b1) <= seizure_spec(
            r2,
            debt_price,
            collateral_price,
            b1,
        ),
        seizure_spec(r1, debt_price, collateral_price, b1) <= seizure_spec(
            r1,
            debt_price,
            collateral_price,
            b2,
        ),
{
    crate::math::law_wad_mul_commutative(r1, debt_price);
    crate::math::law_wad_mul_commutative(r2, debt_price);
    crate::math::lemma_wad_mul_monotone(debt_price, r1, r2);
    let v1 = wad_mul_spec(r1, debt_price);
    let v2 = wad_mul_spec(r2, debt_price);
    crate::math::law_wad_mul_commutative(v1, WAD + b1);
    crate::math::law_wad_mul_commutative(v2, WAD + b1);
    crate::math::lemma_wad_mul_monotone(WAD + b1, v1, v2);
    crate::math::lemma_wad_div_monotone(
        wad_mul_spec(v1, WAD + b1),
        wad_mul_spec(v2, WAD + b1),
        collateral_price,
    );
    crate::math::lemma_wad_mul_monotone(v1, WAD + b1, WAD + b2);
    crate::math::lemma_wad_div_monotone(
        wad_mul_spec(v1, WAD + b1),
        wad_mul_spec(v1, WAD + b2),
        collateral_price,
    );
}

/// A nonce that carried one successful liquidation is refused ever after: any
/// later call with it fails as a duplicate (or as expired, past its deadline).
pub proof fn law_nonce_single_use(
    engine: LiquidationEngineContract,
    now1: u64,
    deadline1: u64,
    repay1: int,
    reads1: PositionReads,
    max1: i128,
    now2: u64,
    deadline2: u64,
    repay2: int,
    reads2: PositionReads,
    max2: i128,
)
    requires
        engine.limits_result(now1, deadline1, false, repay1, reads1, max1) is Ok,
    ensures
        engine.limits_result(now2, deadline2, true, repay2, reads2, max2) == if now2 > deadline2 {
            Err::<int, LiquidationError>(LiquidationError::DeadlineExpired)
        } else {
            Err::<int, LiquidationError>(LiquidationError::DuplicateOperation)
        },
{
}

} // verus!
