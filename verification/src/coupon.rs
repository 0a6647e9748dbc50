use crate::access::check_admin;
use crate::address::{
    base58_text, be_bytes_u64, contains_key, key_bytes, key_to_base58, keys_equal,
    program_address, try_find_program_address, u64_be_bytes, Key,
};
use crate::constants::{
    COUPON_TEMPLATE_SEED, DEFAULT_SCENIC_IMAGE_URI, NFT_AUTHORITY_SEED, NFT_SYMBOL, THIRTY_DAYS,
    TX_RECORD_SEED, USER_COUPON_SEED,
};
use crate::error::{InstructionError, ScenicReviewError};
use crate::events::{CouponRedeemed, CouponTemplateCreated, DefaultCouponsCreated};
use crate::state::{Config, CouponTemplate, TransactionRecord, TxType, UserAccount, UserCoupon};
use crate::lookup::{first_position, lemma_first_position, lemma_no_position};
use crate::text::{
    byte_len, decimal_text, format_decimal, lemma_ascii_encode_len, lemma_decimal_text_u64,
    lemma_encode_utf8_concat, str_bytes, text_len,
};
use vstd::prelude::*;
use vstd::string::StringExecFns;
use vstd::string::StringSliceAdditionalSpecFns;
use vstd::utf8::encode_utf8;

verus! {

/// The seeds of a coupon template's address.
pub open spec fn template_seeds(coupon_id: Seq<char>) -> Seq<Seq<u8>> {
    seq![COUPON_TEMPLATE_SEED.spec_bytes(), encode_utf8(coupon_id)]
}

/// The seeds of the address of a coupon a user bought.
pub open spec fn user_coupon_seeds(user_account: Key, coupon_id: Seq<char>, purchase_id: u64) -> Seq<Seq<u8>> {
    seq![USER_COUPON_SEED.spec_bytes(), user_account@, encode_utf8(coupon_id), be_bytes_u64(purchase_id)]
}

/// The seeds of the address of the record of a coupon purchase.
pub open spec fn purchase_record_seeds(user_account: Key, coupon_id: Seq<char>, purchase_id: u64) -> Seq<Seq<u8>> {
    seq![TX_RECORD_SEED.spec_bytes(), user_account@, encode_utf8(coupon_id), be_bytes_u64(purchase_id)]
}

/// The seeds of the address that signs for coupon NFTs.
pub open spec fn nft_authority_seeds() -> Seq<Seq<u8>> {
    seq![NFT_AUTHORITY_SEED.spec_bytes()]
}

/// A coupon template as a query shows it.
#[derive(Clone, Debug)]
pub struct CouponTemplateInfo {
    pub coupon_id: String,
    pub name: String,
    pub description: String,
    pub token_price: u64,
    pub total_supply: u32,
    pub remaining: u32,
    pub expire_date: i64,
    pub valid_duration: i64,
    pub is_expired: bool,
}

/// A bought coupon as a query shows it.
#[derive(Clone, Debug)]
pub struct UserCouponInfo {
    pub coupon_id: String,
    pub user_pda: Key,
    pub purchase_id: u64,
    pub is_used: bool,
    pub obtain_time: i64,
    pub expire_time: i64,
    pub redeem_time: i64,
}

/// A new coupon template: the whole supply is left, and the event that
/// announces it.
pub fn create_coupon(
    admin: Key,
    coupon_id: String,
    name: String,
    description: String,
    token_price: u64,
    total_supply: u32,
    expire_date: i64,
    valid_duration: i64,
    now: i64,
) -> (r: (CouponTemplate, CouponTemplateCreated))
    ensures
        r.0.admin == admin,
        r.0.coupon_id@ == coupon_id@,
        r.0.name@ == name@,
        r.0.description@ == description@,
        r.0.token_price == token_price,
        r.0.total_supply == total_supply,
        r.0.remaining == total_supply,
        r.0.expire_date == expire_date,
        r.0.valid_duration == valid_duration,
        r.1.coupon_id@ == coupon_id@,
        r.1.name@ == name@,
        r.1.admin == admin,
        r.1.timestamp == now,
        r.0.wf(),
{
    let event = CouponTemplateCreated {
        coupon_id: coupon_id.clone(),
        name: name.clone(),
        admin,
        timestamp: now,
    };
    let template = CouponTemplate {
        admin,
        coupon_id,
        name,
        description,
        token_price,
        total_supply,
        remaining: total_supply,
        expire_date,
        valid_duration,
    };
    (template, event)
}

/// New sale terms for a template; its whole new supply is left.
pub fn update_coupon_template(
    template: &mut CouponTemplate,
    valid_duration: i64,
    expire_date: i64,
    total_supply: u32,
)
    ensures
        final(template).valid_duration == valid_duration,
        final(template).expire_date == expire_date,
        final(template).total_supply == total_supply,
        final(template).remaining == total_supply,
        final(template).admin == old(template).admin,
        final(template).coupon_id == old(template).coupon_id,
        final(template).name == old(template).name,
        final(template).description == old(template).description,
        final(template).token_price == old(template).token_price,
        final(template).wf(),
{
    template.valid_duration = valid_duration;
    template.expire_date = expire_date;
    template.total_supply = total_supply;
    template.remaining = total_supply;
}

/// The coupon id, name, description, price and supply of the `k`-th default
/// coupon.
pub open spec fn default_coupon(k: int) -> (Seq<char>, Seq<char>, Seq<char>, u64, u32) {
    if k == 0 {
        ("COUPON_001"@, "黄山门票8折券"@, "黄山景区门票8折优惠"@, 10_000_000_000u64, 100u32)
    } else if k == 1 {
        ("COUPON_002"@, "泰山导览免费券"@, "泰山景区专业导览服务免费"@, 10_000_000_000u64, 50u32)
    } else if k == 2 {
        ("COUPON_003"@, "桂林游船折扣券"@, "桂林漓江游船9折优惠"@, 10_000_000_000u64, 200u32)
    } else {
        ("COUPON_004"@, "故宫文创满减券"@, "故宫文创产品满100减20"@, 20_000_000_000u64, 80u32)
    }
}

/// The `k`-th default template, on sale until `expire_date`.
pub open spec fn is_default_coupon(t: CouponTemplate, k: int, admin: Key, expire_date: i64) -> bool {
    let d = default_coupon(k);
    &&& t.admin == admin
    &&& t.coupon_id@ == d.0
    &&& t.name@ == d.1
    &&& t.description@ == d.2
    &&& t.token_price == d.3
    &&& t.total_supply == d.4
    &&& t.remaining == d.4
    &&& t.expire_date == expire_date
    &&& t.valid_duration == THIRTY_DAYS
    &&& t.wf()
}

fn default_coupon_template(k: usize, admin: Key, expire_date: i64) -> (t: CouponTemplate)
    requires
        k < 4,
    ensures
        is_default_coupon(t, k as int, admin, expire_date),
{
    let (id, name, desc, price, supply) = if k == 0 {
        ("COUPON_001", "黄山门票8折券", "黄山景区门票8折优惠", 10_000_000_000u64, 100u32)
    } else if k == 1 {
        ("COUPON_002", "泰山导览免费券", "泰山景区专业导览服务免费", 10_000_000_000u64, 50u32)
    } else if k == 2 {
        ("COUPON_003", "桂林游船折扣券", "桂林漓江游船9折优惠", 10_000_000_000u64, 200u32)
    } else {
        ("COUPON_004", "故宫文创满减券", "故宫文创产品满100减20", 20_000_000_000u64, 80u32)
    };
    CouponTemplate {
        admin,
        coupon_id: String::from_str(id),
        name: String::from_str(name),
        description: String::from_str(desc),
        token_price: price,
        total_supply: supply,
        remaining: supply,
        expire_date,
        valid_duration: THIRTY_DAYS,
    }
}

/// What creating the default coupons writes and announces.
pub struct DefaultCoupons {
    pub templates: Vec<CouponTemplate>,
    pub created: Vec<CouponTemplateCreated>,
    pub summary: DefaultCouponsCreated,
}

/// The four default coupon templates, on sale for thirty days from `now`,
/// created by the administrator `admin`; refused to anyone else, and once
/// they have been created.
pub fn create_default_coupons(config: &mut Config, admin: Key, now: i64) -> (r: Result<DefaultCoupons, ScenicReviewError>)
    requires
        old(config).admin == admin && !old(config).default_coupons_created ==> now <= i64::MAX - THIRTY_DAYS,
    ensures
        r is Err <==> old(config).admin != admin || old(config).default_coupons_created,
        r matches Err(e) ==> *final(config) == *old(config) && e == (if old(config).admin != admin {
            ScenicReviewError::NotAdmin
        } else {
            ScenicReviewError::DefaultCouponsAlreadyCreated
        }),
        r matches Ok(out) ==> {
            &&& final(config).default_coupons_created
            &&& final(config).admin == old(config).admin
            &&& final(config).token_mint == old(config).token_mint
            &&& final(config).treasury == old(config).treasury
            &&& final(config).oracle == old(config).oracle
            &&& final(config).vault_authority == old(config).vault_authority
            &&& final(config).bump == old(config).bump
            &&& final(config).vault_bump == old(config).vault_bump
            &&& final(config).default_spots_created == old(config).default_spots_created
            &&& out.templates@.len() == 4
            &&& out.created@.len() == 4
            &&& forall|k: int| 0 <= k < 4 ==> {
                &&& is_default_coupon(#[trigger] out.templates@[k], k, admin, (now + THIRTY_DAYS) as i64)
                &&& out.created@[k].coupon_id@ == default_coupon(k).0
                &&& out.created@[k].name@ == default_coupon(k).1
                &&& out.created@[k].admin == admin
                &&& out.created@[k].timestamp == now
            }
            &&& out.summary == (DefaultCouponsCreated { admin, count: 4, timestamp: now })
        },
{
    if let Err(e) = check_admin(config, &admin) {
        return Err(e);
    }
    if config.default_coupons_created {
        return Err(ScenicReviewError::DefaultCouponsAlreadyCreated);
    }
    let expire_date = now + THIRTY_DAYS;
    let mut templates: Vec<CouponTemplate> = Vec::new();
    let mut created: Vec<CouponTemplateCreated> = Vec::new();
    let mut k: usize = 0;
    while k < 4
        invariant
            k <= 4,
            expire_date == now + THIRTY_DAYS,
            templates@.len() == k,
            created@.len() == k,
            forall|j: int| 0 <= j < k ==> {
                &&& is_default_coupon(#[trigger] templates@[j], j, admin, expire_date)
                &&& created@[j].coupon_id@ == default_coupon(j).0
                &&& created@[j].name@ == default_coupon(j).1
                &&& created@[j].admin == admin
                &&& created@[j].timestamp == now
            },
        decreases 4 - k,
    {
        let t = default_coupon_template(k, admin, expire_date);
        created.push(CouponTemplateCreated {
            coupon_id: t.coupon_id.clone(),
            name: t.name.clone(),
            admin,
            timestamp: now,
        });
        templates.push(t);
        k = k + 1;
    }
    config.default_coupons_created = true;
    Ok(DefaultCoupons {
        templates,
        created,
        summary: DefaultCouponsCreated { admin, count: 4, timestamp: now },
    })
}

/// The templates as a query shows them at time `now`: expired once `now`
/// reaches the end of sale.
pub fn get_default_coupon_templates(templates: &Vec<CouponTemplate>, now: i64) -> (r: Vec<CouponTemplateInfo>)
    ensures
        r@.len() == templates@.len(),
        forall|k: int| 0 <= k < templates@.len() ==> {
            let t = templates@[k];
            let info = #[trigger] r@[k];
            &&& info.coupon_id@ == t.coupon_id@
            &&& info.name@ == t.name@
            &&& info.description@ == t.description@
            &&& info.token_price == t.token_price
            &&& info.total_supply == t.total_supply
            &&& info.remaining == t.remaining
            &&& info.expire_date == t.expire_date
            &&& info.valid_duration == t.valid_duration
            &&& info.is_expired == (now >= t.expire_date)
        },
{
    let mut r: Vec<CouponTemplateInfo> = Vec::new();
    let mut k: usize = 0;
    while k < templates.len()
        invariant
            k <= templates@.len(),
            r@.len() == k,
            forall|j: int| 0 <= j < k ==> {
                let t = templates@[j];
                let info = #[trigger] r@[j];
                &&& info.coupon_id@ == t.coupon_id@
                &&& info.name@ == t.name@
                &&& info.description@ == t.description@
                &&& info.token_price == t.token_price
                &&& info.total_supply == t.total_supply
                &&& info.remaining == t.remaining
                &&& info.expire_date == t.expire_date
                &&& info.valid_duration == t.valid_duration
                &&& info.is_expired == (now >= t.expire_date)
            },
        decreases templates@.len() - k,
    {
        let t = &templates[k];
        r.push(CouponTemplateInfo {
            coupon_id: t.coupon_id.clone(),
            name: t.name.clone(),
            description: t.description.clone(),
            token_price: t.token_price,
            total_supply: t.total_supply,
            remaining: t.remaining,
            expire_date: t.expire_date,
            valid_duration: t.valid_duration,
            is_expired: now >= t.expire_date,
        });
        k = k + 1;
    }
    r
}


/// What buying a coupon reads besides its arguments: the buyer, the
/// addresses of the accounts handed in, the program and the time.
pub struct BuyCouponContext {
    pub user: Key,
    pub user_account_key: Key,
    pub template_key: Key,
    pub user_coupon_key: Key,
    pub tx_record_key: Key,
    pub program_id: Key,
    pub now: i64,
}

/// The `related_id` of a purchase record.
pub open spec fn purchase_related_id(coupon_id: Seq<char>, user_account: Key, purchase_id: u64) -> Seq<char> {
    "coupon_"@ + coupon_id + "_user_"@ + base58_text(user_account) + "_pid_"@ + decimal_text(purchase_id as nat)
}

/// Why a purchase is refused, checked in this order, if it is.
pub open spec fn buy_coupon_refusal(
    template: CouponTemplate,
    coupon_id: Seq<char>,
    purchase_id: u64,
    ctx: BuyCouponContext,
) -> Option<InstructionError> {
    if template.coupon_id@ != coupon_id {
        Some(InstructionError::Scenic(ScenicReviewError::InvalidCouponId))
    } else if ctx.now >= template.expire_date {
        Some(InstructionError::Scenic(ScenicReviewError::CouponExpired))
    } else if template.remaining == 0 {
        Some(InstructionError::Scenic(ScenicReviewError::CouponSoldOut))
    } else {
        match program_address(template_seeds(coupon_id), ctx.program_id) {
            None => Some(InstructionError::NoProgramAddress),
            Some(t) => if t.0 != ctx.template_key {
                Some(InstructionError::Scenic(ScenicReviewError::InvalidCouponId))
            } else {
                match program_address(user_coupon_seeds(ctx.user_account_key, coupon_id, purchase_id), ctx.program_id) {
                    None => Some(InstructionError::NoProgramAddress),
                    Some(u) => if u.0 != ctx.user_coupon_key {
                        Some(InstructionError::Scenic(ScenicReviewError::InvalidCouponId))
                    } else {
                        match program_address(purchase_record_seeds(ctx.user_account_key, coupon_id, purchase_id), ctx.program_id) {
                            None => Some(InstructionError::NoProgramAddress),
                            Some(x) => if x.0 != ctx.tx_record_key {
                                Some(InstructionError::Scenic(ScenicReviewError::BumpNotFound))
                            } else if byte_len("buy_coupon_"@ + template.name@) > 100 {
                                Some(InstructionError::Scenic(ScenicReviewError::ReviewContentTooLong))
                            } else {
                                None
                            },
                        }
                    },
                }
            },
        }
    }
}

/// A purchase of a coupon, once the buyer's payment of `amount` to the
/// treasury has gone through: one fewer is left, the buyer holds an unused
/// coupon valid for the template's duration, the expense is recorded, and
/// the coupon's address joins the buyer's list unless it is there already.
pub fn buy_coupon(
    template: &mut CouponTemplate,
    user_account: &mut UserAccount,
    coupon_id: String,
    purchase_id: u64,
    amount: u64,
    ctx: &BuyCouponContext,
) -> (r: Result<(UserCoupon, TransactionRecord), InstructionError>)
    requires
        old(template).coupon_id@ == coupon_id@ && ctx.now < old(template).expire_date
            && old(template).remaining != 0 ==> i64::MIN <= ctx.now + old(template).valid_duration <= i64::MAX,
    ensures
        r is Err <==> buy_coupon_refusal(*old(template), coupon_id@, purchase_id, *ctx) is Some,
        old(template).coupon_id@ == coupon_id@ && ctx.now < old(template).expire_date
            && old(template).remaining != 0 && encode_utf8(coupon_id@).len() > 32
            ==> r == Err::<(UserCoupon, TransactionRecord), InstructionError>(InstructionError::NoProgramAddress),
        r matches Err(e) ==> {
            &&& Some(e) == buy_coupon_refusal(*old(template), coupon_id@, purchase_id, *ctx)
            &&& *final(template) == *old(template)
            &&& *final(user_account) == *old(user_account)
        },
        r matches Ok((uc, tx)) ==> {
            &&& final(template).remaining == old(template).remaining - 1
            &&& final(template).admin == old(template).admin
            &&& final(template).coupon_id == old(template).coupon_id
            &&& final(template).name == old(template).name
            &&& final(template).description == old(template).description
            &&& final(template).token_price == old(template).token_price
            &&& final(template).total_supply == old(template).total_supply
            &&& final(template).expire_date == old(template).expire_date
            &&& final(template).valid_duration == old(template).valid_duration
            &&& uc.coupon_id@ == coupon_id@
            &&& uc.user_pda == ctx.user_account_key
            &&& uc.purchase_id == purchase_id
            &&& !uc.is_used
            &&& uc.obtain_time == ctx.now
            &&& uc.expire_time == ctx.now + old(template).valid_duration
            &&& uc.redeem_time == 0
            &&& tx.user_pda == ctx.user_account_key
            &&& tx.tx_type == TxType::Expense
            &&& tx.tx_name@ == "buy_coupon_"@ + old(template).name@
            &&& tx.amount == amount
            &&& tx.related_id@ == purchase_related_id(coupon_id@, ctx.user_account_key, purchase_id)
            &&& tx.timestamp == ctx.now
            &&& tx.tx_hash@ == base58_text(ctx.user)
            &&& final(user_account).coupons@ == if old(user_account).coupons@.contains(ctx.user_coupon_key) {
                old(user_account).coupons@
            } else {
                old(user_account).coupons@.push(ctx.user_coupon_key)
            }
            &&& final(user_account).user_wallet == old(user_account).user_wallet
            &&& final(user_account).level == old(user_account).level
            &&& final(user_account).reward_per_review == old(user_account).reward_per_review
            &&& final(user_account).total_reviews == old(user_account).total_reviews
            &&& final(user_account).accepted_reviews == old(user_account).accepted_reviews
            &&& final(user_account).created_at == old(user_account).created_at
            &&& old(template).wf() ==> final(template).wf()
        },
{
    if template.coupon_id != coupon_id {
        return Err(InstructionError::Scenic(ScenicReviewError::InvalidCouponId));
    }
    if ctx.now >= template.expire_date {
        return Err(InstructionError::Scenic(ScenicReviewError::CouponExpired));
    }
    if template.remaining == 0 {
        return Err(InstructionError::Scenic(ScenicReviewError::CouponSoldOut));
    }
    let expire_time = ctx.now + template.valid_duration;
    let id_bytes = str_bytes(coupon_id.as_str());
    let mut seeds: Vec<Vec<u8>> = Vec::new();
    seeds.push(str_bytes(COUPON_TEMPLATE_SEED));
    seeds.push(id_bytes.clone());
    assert(seeds@.map_values(|s: Vec<u8>| s@) =~= template_seeds(coupon_id@));
    assert(seeds@[1]@ == encode_utf8(coupon_id@));
    match try_find_program_address(&seeds, &ctx.program_id) {
        None => return Err(InstructionError::NoProgramAddress),
        Some((pda, _)) => {
            assert(encode_utf8(coupon_id@).len() <= 32) by {
                if seeds@[1]@.len() > 32 {
                    assert(exists|i: int| 0 <= i < seeds@.len() && seeds@[i]@.len() > 32);
                }
            }
            if !keys_equal(&pda, &ctx.template_key) {
                return Err(InstructionError::Scenic(ScenicReviewError::InvalidCouponId));
            }
        },
    }
    let mut seeds: Vec<Vec<u8>> = Vec::new();
    seeds.push(str_bytes(USER_COUPON_SEED));
    seeds.push(key_bytes(&ctx.user_account_key));
    seeds.push(id_bytes.clone());
    seeds.push(u64_be_bytes(purchase_id));
    assert(seeds@.map_values(|s: Vec<u8>| s@) =~= user_coupon_seeds(ctx.user_account_key, coupon_id@, purchase_id));
    match try_find_program_address(&seeds, &ctx.program_id) {
        None => return Err(InstructionError::NoProgramAddress),
        Some((pda, _)) => {
            if !keys_equal(&pda, &ctx.user_coupon_key) {
                return Err(InstructionError::Scenic(ScenicReviewError::InvalidCouponId));
            }
        },
    }
    let mut seeds: Vec<Vec<u8>> = Vec::new();
    seeds.push(str_bytes(TX_RECORD_SEED));
    seeds.push(key_bytes(&ctx.user_account_key));
    seeds.push(id_bytes);
    seeds.push(u64_be_bytes(purchase_id));
    assert(seeds@.map_values(|s: Vec<u8>| s@) =~= purchase_record_seeds(ctx.user_account_key, coupon_id@, purchase_id));
    match try_find_program_address(&seeds, &ctx.program_id) {
        None => return Err(InstructionError::NoProgramAddress),
        Some((pda, _)) => {
            if !keys_equal(&pda, &ctx.tx_record_key) {
                return Err(InstructionError::Scenic(ScenicReviewError::BumpNotFound));
            }
        },
    }
    let mut tx_name = String::from_str("buy_coupon_");
    tx_name.append(template.name.as_str());
    if text_len(&tx_name) > 100 {
        return Err(InstructionError::Scenic(ScenicReviewError::ReviewContentTooLong));
    }
    let mut related_id = String::from_str("coupon_");
    related_id.append(coupon_id.as_str());
    related_id.append("_user_");
    let user_account_text = key_to_base58(&ctx.user_account_key);
    related_id.append(user_account_text.as_str());
    related_id.append("_pid_");
    let pid_text = format_decimal(purchase_id);
    related_id.append(pid_text.as_str());
    assert(related_id@ =~= purchase_related_id(coupon_id@, ctx.user_account_key, purchase_id));
    proof {
        // Each piece of the record's id is short: its length check never fires.
        reveal_strlit("coupon_");
        reveal_strlit("_user_");
        reveal_strlit("_pid_");
        lemma_decimal_text_u64(purchase_id);
        lemma_ascii_encode_len("coupon_"@);
        lemma_ascii_encode_len("_user_"@);
        lemma_ascii_encode_len("_pid_"@);
        lemma_ascii_encode_len(user_account_text@);
        lemma_ascii_encode_len(pid_text@);
        let p1 = "coupon_"@ + coupon_id@;
        let p2 = p1 + "_user_"@;
        let p3 = p2 + user_account_text@;
        let p4 = p3 + "_pid_"@;
        lemma_encode_utf8_concat("coupon_"@, coupon_id@);
        lemma_encode_utf8_concat(p1, "_user_"@);
        lemma_encode_utf8_concat(p2, user_account_text@);
        lemma_encode_utf8_concat(p3, "_pid_"@);
        lemma_encode_utf8_concat(p4, pid_text@);
        assert(related_id@ == p4 + pid_text@);
    }
    if text_len(&related_id) > 200 {
        return Err(InstructionError::Scenic(ScenicReviewError::ReviewContentTooLong));
    }
    let tx_hash = key_to_base58(&ctx.user);
    proof {
        lemma_ascii_encode_len(tx_hash@);
    }
    if text_len(&tx_hash) > 100 {
        return Err(InstructionError::Scenic(ScenicReviewError::ReviewContentTooLong));
    }
    template.remaining = template.remaining - 1;
    let user_coupon = UserCoupon {
        coupon_id,
        user_pda: ctx.user_account_key,
        purchase_id,
        is_used: false,
        obtain_time: ctx.now,
        expire_time,
        redeem_time: 0,
    };
    let tx_record = TransactionRecord {
        user_pda: ctx.user_account_key,
        tx_type: TxType::Expense,
        tx_name,
        amount,
        related_id,
        timestamp: ctx.now,
        tx_hash,
    };
    if !contains_key(&user_account.coupons, &ctx.user_coupon_key) {
        user_account.coupons.push(ctx.user_coupon_key);
    }
    Ok((user_coupon, tx_record))
}

/// What redeeming a coupon reads besides its arguments.
pub struct RedeemCouponContext {
    pub user: Key,
    pub nft_mint: Key,
    pub program_id: Key,
    pub now: i64,
}

/// The metadata given to a coupon's NFT.
pub struct NftMetadata {
    pub name: String,
    pub symbol: String,
    pub uri: String,
}

/// What redeeming a coupon asks the token programs to do: create the user's
/// token account for the NFT, mint one NFT to it and give it metadata, each
/// signed by the NFT authority with this bump.
pub struct RedeemOutcome {
    pub nft_authority_bump: u8,
    pub metadata: NftMetadata,
    pub event: CouponRedeemed,
}

/// Why a redemption is refused, checked in this order, if it is.
pub open spec fn redeem_coupon_refusal(
    coupon: UserCoupon,
    coupon_id: Seq<char>,
    purchase_id: u64,
    ctx: RedeemCouponContext,
) -> Option<InstructionError> {
    if coupon.is_used {
        Some(InstructionError::Scenic(ScenicReviewError::CouponAlreadyUsed))
    } else if coupon.coupon_id@ != coupon_id {
        Some(InstructionError::Scenic(ScenicReviewError::InvalidCouponId))
    } else if coupon.purchase_id != purchase_id {
        Some(InstructionError::Scenic(ScenicReviewError::InvalidCouponId))
    } else if ctx.now > coupon.expire_time {
        Some(InstructionError::Scenic(ScenicReviewError::CouponExpired))
    } else if program_address(nft_authority_seeds(), ctx.program_id) is None {
        Some(InstructionError::NoProgramAddress)
    } else {
        None
    }
}

/// Redemption of an unused, unexpired coupon: it is marked used at `now` and
/// turned into an NFT named after the coupon's template.
pub fn redeem_coupon(
    user_coupon: &mut UserCoupon,
    template: &CouponTemplate,
    coupon_id: String,
    purchase_id: u64,
    ctx: &RedeemCouponContext,
) -> (r: Result<RedeemOutcome, InstructionError>)
    ensures
        r is Err <==> redeem_coupon_refusal(*old(user_coupon), coupon_id@, purchase_id, *ctx) is Some,
        r matches Err(e) ==> Some(e) == redeem_coupon_refusal(*old(user_coupon), coupon_id@, purchase_id, *ctx)
            && *final(user_coupon) == *old(user_coupon),
        r matches Ok(out) ==> {
            &&& final(user_coupon).is_used
            &&& final(user_coupon).redeem_time == ctx.now
            &&& final(user_coupon).coupon_id == old(user_coupon).coupon_id
            &&& final(user_coupon).user_pda == old(user_coupon).user_pda
            &&& final(user_coupon).purchase_id == old(user_coupon).purchase_id
            &&& final(user_coupon).obtain_time == old(user_coupon).obtain_time
            &&& final(user_coupon).expire_time == old(user_coupon).expire_time
            &&& out.nft_authority_bump == program_address(nft_authority_seeds(), ctx.program_id)->Some_0.1
            &&& out.metadata.name@ == template.name@
            &&& out.metadata.symbol@ == NFT_SYMBOL@
            &&& out.metadata.uri@ == DEFAULT_SCENIC_IMAGE_URI@
            &&& out.event.user == ctx.user
            &&& out.event.coupon_id@ == coupon_id@
            &&& out.event.nft_mint == ctx.nft_mint
            &&& out.event.timestamp == ctx.now
        },
{
    if user_coupon.is_used {
        return Err(InstructionError::Scenic(ScenicReviewError::CouponAlreadyUsed));
    }
    if user_coupon.coupon_id != coupon_id {
        return Err(InstructionError::Scenic(ScenicReviewError::InvalidCouponId));
    }
    if user_coupon.purchase_id != purchase_id {
        return Err(InstructionError::Scenic(ScenicReviewError::InvalidCouponId));
    }
    if ctx.now > user_coupon.expire_time {
        return Err(InstructionError::Scenic(ScenicReviewError::CouponExpired));
    }
    let mut seeds: Vec<Vec<u8>> = Vec::new();
    seeds.push(str_bytes(NFT_AUTHORITY_SEED));
    assert(seeds@.map_values(|s: Vec<u8>| s@) =~= nft_authority_seeds());
    let bump = match try_find_program_address(&seeds, &ctx.program_id) {
        None => return Err(InstructionError::NoProgramAddress),
        Some((_, bump)) => bump,
    };
    user_coupon.is_used = true;
    user_coupon.redeem_time = ctx.now;
    Ok(RedeemOutcome {
        nft_authority_bump: bump,
        metadata: NftMetadata {
            name: template.name.clone(),
            symbol: String::from_str(NFT_SYMBOL),
            uri: String::from_str(DEFAULT_SCENIC_IMAGE_URI),
        },
        event: CouponRedeemed {
            user: ctx.user,
            coupon_id,
            nft_mint: ctx.nft_mint,
            timestamp: ctx.now,
        },
    })
}

/// An account handed to the coupon query: its address, owner, and the
/// coupon its data decodes to, if it decodes to one.
pub struct CouponAccount {
    pub key: Key,
    pub owner: Key,
    pub coupon: Option<UserCoupon>,
}

pub open spec fn account_keys(accounts: Seq<CouponAccount>) -> Seq<Key> {
    accounts.map_values(|a: CouponAccount| a.key)
}

/// The coupons of a user's list, in order, or the first failure: a listed
/// address with no account handed in, or an account of the program that does
/// not decode. Accounts owned by another program are passed over.
pub open spec fn listed_coupons(coupons: Seq<Key>, accounts: Seq<CouponAccount>, program_id: Key) -> Result<Seq<UserCoupon>, InstructionError>
    decreases coupons.len(),
{
    if coupons.len() == 0 {
        Ok(Seq::empty())
    } else {
        match listed_coupons(coupons.drop_last(), accounts, program_id) {
            Err(e) => Err(e),
            Ok(prev) => match first_position(account_keys(accounts), coupons.last()) {
                None => Err(InstructionError::Scenic(ScenicReviewError::CouponNotFound)),
                Some(j) => if accounts[j].owner != program_id {
                    Ok(prev)
                } else {
                    match accounts[j].coupon {
                        None => Err(InstructionError::AccountDidNotDeserialize),
                        Some(c) => Ok(prev.push(c)),
                    }
                },
            },
        }
    }
}

/// A failure on a prefix of the list is the failure of the whole list.
pub proof fn lemma_listed_failure_stays(coupons: Seq<Key>, accounts: Seq<CouponAccount>, program_id: Key, n: int)
    requires
        0 <= n <= coupons.len(),
        listed_coupons(coupons.take(n), accounts, program_id) is Err,
    ensures
        listed_coupons(coupons, accounts, program_id) == listed_coupons(coupons.take(n), accounts, program_id),
    decreases coupons.len(),
{
    if n == coupons.len() {
        assert(coupons.take(n) =~= coupons);
    } else {
        assert(coupons.drop_last().take(n) =~= coupons.take(n));
        lemma_listed_failure_stays(coupons.drop_last(), accounts, program_id, n);
    }
}

/// Whether a query item shows this coupon.
pub open spec fn shows_coupon(info: UserCouponInfo, c: UserCoupon) -> bool {
    &&& info.coupon_id@ == c.coupon_id@
    &&& info.user_pda == c.user_pda
    &&& info.purchase_id == c.purchase_id
    &&& info.is_used == c.is_used
    &&& info.obtain_time == c.obtain_time
    &&& info.expire_time == c.expire_time
    &&& info.redeem_time == c.redeem_time
}

fn find_account(accounts: &Vec<CouponAccount>, key: &Key) -> (r: Option<usize>)
    ensures
        r matches Some(i) ==> first_position(account_keys(accounts@), *key) == Some(i as int),
        r is None ==> first_position(account_keys(accounts@), *key) is None,
{
    let ghost keys = account_keys(accounts@);
    let mut i: usize = 0;
    while i < accounts.len()
        invariant
            keys == account_keys(accounts@),
            i <= accounts@.len(),
            forall|j: int| 0 <= j < i ==> keys[j] != *key,
        decreases accounts@.len() - i,
    {
        if keys_equal(&accounts[i].key, key) {
            proof { lemma_first_position(keys, *key, i as int); }
            return Some(i);
        }
        i = i + 1;
    }
    proof { lemma_no_position(keys, *key); }
    None
}

/// The coupons a user bought, looked up among the accounts handed in.
pub fn get_user_coupons(
    user_account: &UserAccount,
    accounts: &Vec<CouponAccount>,
    program_id: &Key,
) -> (r: Result<Vec<UserCouponInfo>, InstructionError>)
    ensures
        match listed_coupons(user_account.coupons@, accounts@, *program_id) {
            Err(e) => r == Err::<Vec<UserCouponInfo>, InstructionError>(e),
            Ok(cs) => r matches Ok(infos) && infos@.len() == cs.len()
                && forall|k: int| 0 <= k < cs.len() ==> shows_coupon(#[trigger] infos@[k], cs[k]),
        },
{
    let coupons = &user_account.coupons;
    let mut infos: Vec<UserCouponInfo> = Vec::new();
    let mut i: usize = 0;
    while i < coupons.len()
        invariant
            coupons@ == user_account.coupons@,
            i <= coupons@.len(),
            listed_coupons(coupons@.take(i as int), accounts@, *program_id) matches Ok(cs)
                && infos@.len() == cs.len()
                && forall|k: int| 0 <= k < cs.len() ==> shows_coupon(#[trigger] infos@[k], cs[k]),
        decreases coupons@.len() - i,
    {
        assert(coupons@.take(i + 1).drop_last() =~= coupons@.take(i as int));
        assert(coupons@.take(i + 1).last() == coupons@[i as int]);
        let j = match find_account(accounts, &coupons[i]) {
            None => {
                assert(listed_coupons(coupons@.take(i + 1), accounts@, *program_id)
                    == Err::<Seq<UserCoupon>, InstructionError>(InstructionError::Scenic(ScenicReviewError::CouponNotFound)));
                proof { lemma_listed_failure_stays(coupons@, accounts@, *program_id, i + 1); }
                return Err(InstructionError::Scenic(ScenicReviewError::CouponNotFound));
            },
            Some(j) => j,
        };
        let a = &accounts[j];
        if keys_equal(&a.owner, program_id) {
            match &a.coupon {
                None => {
                    assert(listed_coupons(coupons@.take(i + 1), accounts@, *program_id)
                        == Err::<Seq<UserCoupon>, InstructionError>(InstructionError::AccountDidNotDeserialize));
                    proof { lemma_listed_failure_stays(coupons@, accounts@, *program_id, i + 1); }
                    return Err(InstructionError::AccountDidNotDeserialize);
                },
                Some(c) => {
                    infos.push(UserCouponInfo {
                        coupon_id: c.coupon_id.clone(),
                        user_pda: c.user_pda,
                        purchase_id: c.purchase_id,
                        is_used: c.is_used,
                        obtain_time: c.obtain_time,
                        expire_time: c.expire_time,
                        redeem_time: c.redeem_time,
                    });
                },
            }
        }
        i = i + 1;
    }
    assert(coupons@.take(coupons@.len() as int) =~= coupons@);
    Ok(infos)
}

} // verus!
