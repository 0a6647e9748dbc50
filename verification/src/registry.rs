use crate::access::{check_admin, check_mint_decimals};
use crate::address::{default_key, zero_key, Key};
use crate::constants::{
    MAX_DESCRIPTION_LENGTH, MAX_SCENIC_NAME_LENGTH, MAX_SCENIC_SPOTS, MAX_TAGS_LENGTH,
    REVIEW_BATCH_SIZE, SCENIC_SPOT_INIT_ID, TOKEN_DECIMALS,
};
use crate::error::ScenicReviewError;
use crate::events::{DefaultScenicSpotsCreated, ReviewBatchReady};
use crate::lookup::{
    accepted_ids, extra_ids, find_accepted, find_extra, find_id_to_name, first_position,
    name_registered, name_to_id_names,
};
use crate::state::{
    Config, ExtraScenicData, IdToName, NameToId, ScenicAcceptedReviews, ScenicIdRegistry,
    ScenicSpot,
};
use crate::text::{byte_len, text_len};
use vstd::prelude::*;
use vstd::string::StringExecFns;
use vstd::string::StringSliceAdditionalSpecFns;

verus! {

/// The registry's name entries as (name, id) pairs.
pub open spec fn name_entries(v: Seq<NameToId>) -> Seq<(Seq<char>, u64)> {
    v.map_values(|e: NameToId| (e.name@, e.id))
}

/// The registry's id entries as (id, name) pairs.
pub open spec fn id_entries(v: Seq<IdToName>) -> Seq<(u64, Seq<char>)> {
    v.map_values(|e: IdToName| (e.id, e.name@))
}

/// The registry's extra data as (id, location, tags, rating bits, description).
pub open spec fn extra_entries(v: Seq<ExtraScenicData>) -> Seq<(u64, Seq<char>, Seq<char>, u64, Seq<char>)> {
    v.map_values(|e: ExtraScenicData| (e.id, e.location@, e.tags@, e.rating_bits, e.description@))
}

/// What initializing the program reads besides its argument.
pub struct InitializeContext {
    pub admin: Key,
    pub token_mint: Key,
    pub token_mint_decimals: u8,
    pub treasury: Key,
    pub vault_authority: Key,
    pub config_bump: u8,
    pub vault_bump: u8,
    pub registry_bump: u8,
}

/// The initial configuration and an empty registry whose first id is 1;
/// refused when the mint handed in does not have the token's decimals or is
/// not the one named.
pub fn initialize_all(ctx: &InitializeContext, token_mint: Key) -> (r: Result<(Config, ScenicIdRegistry), ScenicReviewError>)
    ensures
        r is Err <==> ctx.token_mint_decimals != TOKEN_DECIMALS || ctx.token_mint != token_mint,
        r matches Err(e) ==> e == ScenicReviewError::InvalidTokenMint,
        r matches Ok((config, registry)) ==> {
            &&& config == (Config {
                admin: ctx.admin,
                token_mint,
                treasury: ctx.treasury,
                oracle: zero_key(),
                vault_authority: ctx.vault_authority,
                bump: ctx.config_bump,
                vault_bump: ctx.vault_bump,
                default_spots_created: false,
                default_coupons_created: false,
            })
            &&& registry.bump == ctx.registry_bump
            &&& registry.next_id == SCENIC_SPOT_INIT_ID
            &&& registry.total_count == 0
            &&& registry.name_to_id@.len() == 0
            &&& registry.id_to_name@.len() == 0
            &&& registry.extra_scenic_data@.len() == 0
            &&& registry.scenic_accepted_reviews@.len() == 0
            &&& registry.scenic_latest_detail_version@.len() == 0
            &&& registry.wf()
        },
{
    if let Err(e) = check_mint_decimals(ctx.token_mint_decimals) {
        return Err(e);
    }
    if !crate::address::keys_equal(&ctx.token_mint, &token_mint) {
        return Err(ScenicReviewError::InvalidTokenMint);
    }
    let config = Config {
        admin: ctx.admin,
        token_mint,
        treasury: ctx.treasury,
        oracle: default_key(),
        vault_authority: ctx.vault_authority,
        bump: ctx.config_bump,
        vault_bump: ctx.vault_bump,
        default_spots_created: false,
        default_coupons_created: false,
    };
    let registry = ScenicIdRegistry {
        bump: ctx.registry_bump,
        next_id: SCENIC_SPOT_INIT_ID,
        total_count: 0,
        name_to_id: Vec::new(),
        id_to_name: Vec::new(),
        extra_scenic_data: Vec::new(),
        scenic_accepted_reviews: Vec::new(),
        scenic_latest_detail_version: Vec::new(),
    };
    Ok((config, registry))
}

/// Why registering a spot is refused, checked in this order, if it is.
pub open spec fn create_scenic_spot_refusal(
    registry: ScenicIdRegistry,
    name: Seq<char>,
    description: Seq<char>,
    tags: Seq<char>,
) -> Option<ScenicReviewError> {
    if byte_len(name) > MAX_SCENIC_NAME_LENGTH {
        Some(ScenicReviewError::ScenicSpotNameTooLong)
    } else if byte_len(description) > MAX_DESCRIPTION_LENGTH {
        Some(ScenicReviewError::ScenicSpotDescriptionTooLong)
    } else if byte_len(tags) > MAX_TAGS_LENGTH {
        Some(ScenicReviewError::ScenicSpotTagsTooLong)
    } else if registry.names().contains(name) {
        Some(ScenicReviewError::ScenicSpotNameDuplicate)
    } else if registry.total_count >= MAX_SCENIC_SPOTS {
        Some(ScenicReviewError::ScenicSpotLimitReached)
    } else {
        None
    }
}

/// A new spot under the registry's next id: registered by name, id and extra
/// data, with no accepted review counted yet.
#[verifier::spinoff_prover]
#[verifier::rlimit(40)]
pub fn create_scenic_spot(
    registry: &mut ScenicIdRegistry,
    name: String,
    location: String,
    rating_bits: u64,
    description: String,
    tags: String,
    admin: Key,
    now: i64,
) -> (r: Result<ScenicSpot, ScenicReviewError>)
    requires
        create_scenic_spot_refusal(*old(registry), name@, description@, tags@) is None
            ==> old(registry).next_id < u64::MAX,
    ensures
        r is Err <==> create_scenic_spot_refusal(*old(registry), name@, description@, tags@) is Some,
        r matches Err(e) ==> Some(e) == create_scenic_spot_refusal(*old(registry), name@, description@, tags@)
            && *final(registry) == *old(registry),
        r matches Ok(spot) ==> {
            let id = old(registry).next_id;
            &&& final(registry).next_id == id + 1
            &&& final(registry).total_count == old(registry).total_count + 1
            &&& final(registry).bump == old(registry).bump
            &&& name_entries(final(registry).name_to_id@) == name_entries(old(registry).name_to_id@).push((name@, id))
            &&& id_entries(final(registry).id_to_name@) == id_entries(old(registry).id_to_name@).push((id, name@))
            &&& extra_entries(final(registry).extra_scenic_data@)
                == extra_entries(old(registry).extra_scenic_data@).push((id, location@, tags@, rating_bits, description@))
            &&& final(registry).scenic_accepted_reviews@
                == old(registry).scenic_accepted_reviews@.push(ScenicAcceptedReviews { scenic_id: id, count: 0 })
            &&& final(registry).scenic_latest_detail_version == old(registry).scenic_latest_detail_version
            &&& spot.id == id
            &&& spot.admin == admin
            &&& spot.name@ == name@
            &&& spot.location@ == location@
            &&& spot.tags@ == tags@
            &&& spot.base_rating_bits == rating_bits
            &&& spot.created_at == now
            &&& spot.is_active
            &&& spot.accepted_review_count == 0
            &&& spot.description@ == description@
            &&& old(registry).wf() ==> final(registry).wf()
        },
{
    if text_len(&name) > MAX_SCENIC_NAME_LENGTH {
        return Err(ScenicReviewError::ScenicSpotNameTooLong);
    }
    if text_len(&description) > MAX_DESCRIPTION_LENGTH {
        return Err(ScenicReviewError::ScenicSpotDescriptionTooLong);
    }
    if text_len(&tags) > MAX_TAGS_LENGTH {
        return Err(ScenicReviewError::ScenicSpotTagsTooLong);
    }
    if name_registered(&registry.name_to_id, &name) {
        return Err(ScenicReviewError::ScenicSpotNameDuplicate);
    }
    if registry.total_count as usize >= MAX_SCENIC_SPOTS {
        return Err(ScenicReviewError::ScenicSpotLimitReached);
    }
    let new_id = registry.next_id;
    registry.next_id = registry.next_id + 1;
    registry.total_count = registry.total_count + 1;
    registry.name_to_id.push(NameToId { name: name.clone(), id: new_id });
    registry.id_to_name.push(IdToName { id: new_id, name: name.clone() });
    registry.extra_scenic_data.push(ExtraScenicData {
        id: new_id,
        location: location.clone(),
        tags: tags.clone(),
        rating_bits,
        description: description.clone(),
    });
    registry.scenic_accepted_reviews.push(ScenicAcceptedReviews { scenic_id: new_id, count: 0 });
    assert(name_entries(registry.name_to_id@) =~= name_entries(old(registry).name_to_id@).push((name@, new_id)));
    assert(id_entries(registry.id_to_name@) =~= id_entries(old(registry).id_to_name@).push((new_id, name@)));
    assert(extra_entries(registry.extra_scenic_data@) =~= extra_entries(old(registry).extra_scenic_data@).push(
        (new_id, location@, tags@, rating_bits, description@),
    ));
    proof {
        if old(registry).wf() {
            let n = old(registry).name_to_id@.len() as int;
            assert forall|i: int, j: int| 0 <= i < j < registry.name_to_id@.len() implies
                #[trigger] registry.name_to_id@[i].name@ != #[trigger] registry.name_to_id@[j].name@ by {
                if j == n {
                    assert(old(registry).names()[i] == registry.name_to_id@[i].name@);
                }
            }
            assert forall|i: int| 0 <= i < registry.name_to_id@.len() implies {
                &&& #[trigger] registry.name_to_id@[i].id == registry.id_to_name@[i].id
                &&& registry.name_to_id@[i].name@ == registry.id_to_name@[i].name@
                &&& registry.extra_scenic_data@[i].id == registry.name_to_id@[i].id
            } by {
                if i < n {
                    assert(old(registry).name_to_id@[i].id == old(registry).id_to_name@[i].id);
                }
            }
        }
    }
    Ok(ScenicSpot {
        id: new_id,
        admin,
        name,
        location,
        tags,
        base_rating_bits: rating_bits,
        created_at: now,
        is_active: true,
        accepted_review_count: 0,
        description,
    })
}


/// The id, name, location, tags and description of the `k`-th default spot;
/// every default spot starts with a rating of 0.0.
pub open spec fn default_spot(k: int) -> (u64, Seq<char>, Seq<char>, Seq<char>, Seq<char>) {
    if k == 0 {
        (1u64, "Eiffel Tower"@, "Paris, France"@, "Iconic, Night View"@, "Symbol of with panoramic city views"@)
    } else if k == 1 {
        (2u64, "Huangshan"@, "Anhui, China"@, "Sea of,Sunrise,Plank Roads"@, "Breathtaking with magnificent sea of clouds"@)
    } else if k == 2 {
        (3u64, "Taj Mahal"@, "Agra, India"@, "White-Marble,Symbol of Love"@, "architectural gem built marble for love"@)
    } else if k == 3 {
        (4u64, "Sydney Opera House"@, "Sydney, Australia"@, "Shell-Shaped,Coastal Scenery"@, "UNESCO site with sail-like and coastal views"@)
    } else if k == 4 {
        (5u64, "Statue of Liberty"@, "New York, USA"@, "Symbol of,New York Harbor"@, "Icon of freedom by France to the United States"@)
    } else if k == 5 {
        (6u64, "Mount Fuji"@, "Honshu, Japan"@, "Cherry,Snow-Capped Peak"@, "Japan's highest with iconic snow-capped summit"@)
    } else if k == 6 {
        (7u64, "Santorini"@, "Greece"@, "Blue-white,Aegean Sea"@, "Aegean with blue-white buildings and  views"@)
    } else {
        (8u64, "Giza Pyramids"@, "Cairo, Egypt"@, "Ancient Wonder,Tombs"@, "Ancient Egyptian , one of the Seven Wonders"@)
    }
}

pub const DEFAULT_SPOT_COUNT: usize = 8;

fn default_spot_texts(k: usize) -> (r: (u64, &'static str, &'static str, &'static str, &'static str))
    requires
        k < DEFAULT_SPOT_COUNT,
    ensures
        (r.0, r.1@, r.2@, r.3@, r.4@) == default_spot(k as int),
{
    if k == 0 {
        (1u64, "Eiffel Tower", "Paris, France", "Iconic, Night View", "Symbol of with panoramic city views")
    } else if k == 1 {
        (2u64, "Huangshan", "Anhui, China", "Sea of,Sunrise,Plank Roads", "Breathtaking with magnificent sea of clouds")
    } else if k == 2 {
        (3u64, "Taj Mahal", "Agra, India", "White-Marble,Symbol of Love", "architectural gem built marble for love")
    } else if k == 3 {
        (4u64, "Sydney Opera House", "Sydney, Australia", "Shell-Shaped,Coastal Scenery", "UNESCO site with sail-like and coastal views")
    } else if k == 4 {
        (5u64, "Statue of Liberty", "New York, USA", "Symbol of,New York Harbor", "Icon of freedom by France to the United States")
    } else if k == 5 {
        (6u64, "Mount Fuji", "Honshu, Japan", "Cherry,Snow-Capped Peak", "Japan's highest with iconic snow-capped summit")
    } else if k == 6 {
        (7u64, "Santorini", "Greece", "Blue-white,Aegean Sea", "Aegean with blue-white buildings and  views")
    } else {
        (8u64, "Giza Pyramids", "Cairo, Egypt", "Ancient Wonder,Tombs", "Ancient Egyptian , one of the Seven Wonders")
    }
}

/// The first length check that a default spot from the `k`-th on fails, in
/// the order name, tags, description.
pub open spec fn default_spots_refusal_from(k: int) -> Option<ScenicReviewError>
    decreases DEFAULT_SPOT_COUNT - k,
{
    if k < 0 || k >= DEFAULT_SPOT_COUNT {
        None
    } else if byte_len(default_spot(k).1) > MAX_SCENIC_NAME_LENGTH {
        Some(ScenicReviewError::ScenicSpotNameTooLong)
    } else if byte_len(default_spot(k).3) > MAX_TAGS_LENGTH {
        Some(ScenicReviewError::ScenicSpotTagsTooLong)
    } else if byte_len(default_spot(k).4) > MAX_DESCRIPTION_LENGTH {
        Some(ScenicReviewError::ScenicSpotDescriptionTooLong)
    } else {
        default_spots_refusal_from(k + 1)
    }
}

/// The names of the listed default spots.
pub open spec fn default_names(created: Seq<int>) -> Seq<Seq<char>> {
    created.map_values(|j: int| default_spot(j).1)
}

/// The default spots, among the first `k`, that get created over a registry
/// holding `names`: each one whose name is not registered yet.
pub open spec fn spots_created(names: Seq<Seq<char>>, k: int) -> Seq<int>
    decreases k,
{
    if k <= 0 {
        Seq::empty()
    } else {
        let prev = spots_created(names, k - 1);
        if (names + default_names(prev)).contains(default_spot(k - 1).1) {
            prev
        } else {
            prev.push(k - 1)
        }
    }
}

/// The registry's next id after creating the listed default spots.
pub open spec fn next_id_after_defaults(created: Seq<int>, next_id: u64) -> u64 {
    if created.len() == 0 {
        next_id
    } else {
        (default_spot(created.last()).0 + 1) as u64
    }
}

/// The account of the `k`-th default spot: set up when created, left blank
/// when skipped.
pub open spec fn is_default_spot_account(s: ScenicSpot, k: int, created: bool, admin: Key, now: i64) -> bool {
    if created {
        &&& s.id == default_spot(k).0
        &&& s.admin == admin
        &&& s.name@ == default_spot(k).1
        &&& s.location@ == default_spot(k).2
        &&& s.tags@ == default_spot(k).3
        &&& s.base_rating_bits == 0
        &&& s.created_at == now
        &&& s.is_active
        &&& s.accepted_review_count == 0
        &&& s.description@ == default_spot(k).4
    } else {
        &&& s.id == 0
        &&& s.admin == zero_key()
        &&& s.name@ == Seq::<char>::empty()
        &&& s.location@ == Seq::<char>::empty()
        &&& s.tags@ == Seq::<char>::empty()
        &&& s.base_rating_bits == 0
        &&& s.created_at == 0
        &&& !s.is_active
        &&& s.accepted_review_count == 0
        &&& s.description@ == Seq::<char>::empty()
    }
}

pub open spec fn default_name_entries(created: Seq<int>) -> Seq<(Seq<char>, u64)> {
    created.map_values(|j: int| (default_spot(j).1, default_spot(j).0))
}

pub open spec fn default_id_entries(created: Seq<int>) -> Seq<(u64, Seq<char>)> {
    created.map_values(|j: int| (default_spot(j).0, default_spot(j).1))
}

pub open spec fn default_extra_entries(created: Seq<int>) -> Seq<(u64, Seq<char>, Seq<char>, u64, Seq<char>)> {
    created.map_values(|j: int| (default_spot(j).0, default_spot(j).2, default_spot(j).3, 0u64, default_spot(j).4))
}

proof fn lemma_spots_created_shape(names: Seq<Seq<char>>, k: int)
    requires
        0 <= k,
    ensures
        spots_created(names, k).len() <= k,
        forall|i: int| 0 <= i < spots_created(names, k).len() ==> 0 <= #[trigger] spots_created(names, k)[i] < k,
        spots_created(names, k).len() > 0 ==> spots_created(names, k).last() < k,
    decreases k,
{
    if k > 0 {
        lemma_spots_created_shape(names, k - 1);
    }
}

/// The eight default spots, each registered and set up unless its name is
/// registered already; refused once they have been created.
pub struct DefaultSpots {
    pub spots: Vec<ScenicSpot>,
    pub event: DefaultScenicSpotsCreated,
}

fn blank_spot() -> (s: ScenicSpot)
    ensures
        is_default_spot_account(s, 0, false, zero_key(), 0),
{
    ScenicSpot {
        id: 0,
        admin: default_key(),
        name: String::new(),
        location: String::new(),
        tags: String::new(),
        base_rating_bits: 0,
        created_at: 0,
        is_active: false,
        accepted_review_count: 0,
        description: String::new(),
    }
}

pub fn create_default_scenic_spots(
    config: &mut Config,
    registry: &mut ScenicIdRegistry,
    admin: Key,
    now: i64,
) -> (r: Result<DefaultSpots, ScenicReviewError>)
    requires
        old(config).admin == admin && !old(config).default_spots_created && default_spots_refusal_from(0) is None
            ==> old(registry).total_count + spots_created(old(registry).names(), DEFAULT_SPOT_COUNT as int).len() <= u8::MAX,
    ensures
        r is Err <==> old(config).admin != admin || old(config).default_spots_created
            || default_spots_refusal_from(0) is Some,
        r matches Err(e) ==> {
            &&& e == if old(config).admin != admin {
                ScenicReviewError::NotAdmin
            } else if old(config).default_spots_created {
                ScenicReviewError::DefaultSpotsAlreadyCreated
            } else {
                default_spots_refusal_from(0)->Some_0
            }
            &&& *final(config) == *old(config)
            &&& *final(registry) == *old(registry)
        },
        r matches Ok(out) ==> {
            let created = spots_created(old(registry).names(), DEFAULT_SPOT_COUNT as int);
            &&& final(config).default_spots_created
            &&& final(config).admin == old(config).admin
            &&& final(config).token_mint == old(config).token_mint
            &&& final(config).treasury == old(config).treasury
            &&& final(config).oracle == old(config).oracle
            &&& final(config).vault_authority == old(config).vault_authority
            &&& final(config).bump == old(config).bump
            &&& final(config).vault_bump == old(config).vault_bump
            &&& final(config).default_coupons_created == old(config).default_coupons_created
            &&& name_entries(final(registry).name_to_id@)
                == name_entries(old(registry).name_to_id@) + default_name_entries(created)
            &&& id_entries(final(registry).id_to_name@)
                == id_entries(old(registry).id_to_name@) + default_id_entries(created)
            &&& extra_entries(final(registry).extra_scenic_data@)
                == extra_entries(old(registry).extra_scenic_data@) + default_extra_entries(created)
            &&& final(registry).next_id == next_id_after_defaults(created, old(registry).next_id)
            &&& final(registry).total_count == old(registry).total_count + created.len()
            &&& final(registry).bump == old(registry).bump
            &&& final(registry).scenic_accepted_reviews == old(registry).scenic_accepted_reviews
            &&& final(registry).scenic_latest_detail_version == old(registry).scenic_latest_detail_version
            &&& out.spots@.len() == DEFAULT_SPOT_COUNT
            &&& forall|k: int| 0 <= k < DEFAULT_SPOT_COUNT ==>
                is_default_spot_account(#[trigger] out.spots@[k], k, created.contains(k), admin, now)
            &&& out.event == (DefaultScenicSpotsCreated { admin, count: created.len() as u8, timestamp: now })
            &&& old(registry).wf() ==> final(registry).wf()
            &&& old(registry).names_mirrored() ==> final(registry).names_mirrored()
        },
{
    if let Err(e) = check_admin(config, &admin) {
        return Err(e);
    }
    if config.default_spots_created {
        return Err(ScenicReviewError::DefaultSpotsAlreadyCreated);
    }
    // The length checks come first: they do not depend on the registry.
    let mut k: usize = 0;
    while k < DEFAULT_SPOT_COUNT
        invariant
            k <= DEFAULT_SPOT_COUNT,
            !old(config).default_spots_created,
            old(config).admin == admin,
            *config == *old(config),
            *registry == *old(registry),
            default_spots_refusal_from(0) == default_spots_refusal_from(k as int),
        decreases DEFAULT_SPOT_COUNT - k,
    {
        let (_, name, _, tags, description) = default_spot_texts(k);
        assert(name.spec_bytes() == vstd::utf8::encode_utf8(default_spot(k as int).1));
        if name.len() > MAX_SCENIC_NAME_LENGTH {
            assert(default_spots_refusal_from(k as int) == Some(ScenicReviewError::ScenicSpotNameTooLong));
            return Err(ScenicReviewError::ScenicSpotNameTooLong);
        }
        if tags.len() > MAX_TAGS_LENGTH {
            return Err(ScenicReviewError::ScenicSpotTagsTooLong);
        }
        if description.len() > MAX_DESCRIPTION_LENGTH {
            return Err(ScenicReviewError::ScenicSpotDescriptionTooLong);
        }
        k = k + 1;
    }
    let ghost old_names = registry.names();
    let ghost old_reg = *registry;
    let mut spots: Vec<ScenicSpot> = Vec::new();
    let mut current_id = registry.next_id;
    let mut created_count: u8 = 0;
    let mut k: usize = 0;
    while k < DEFAULT_SPOT_COUNT
        invariant
            k <= DEFAULT_SPOT_COUNT,
            old_names == old_reg.names(),
            old_reg.total_count + spots_created(old_names, DEFAULT_SPOT_COUNT as int).len() <= u8::MAX,
            registry.names() == old_names + default_names(spots_created(old_names, k as int)),
            name_entries(registry.name_to_id@) == name_entries(old_reg.name_to_id@)
                + default_name_entries(spots_created(old_names, k as int)),
            id_entries(registry.id_to_name@) == id_entries(old_reg.id_to_name@)
                + default_id_entries(spots_created(old_names, k as int)),
            extra_entries(registry.extra_scenic_data@) == extra_entries(old_reg.extra_scenic_data@)
                + default_extra_entries(spots_created(old_names, k as int)),
            current_id == next_id_after_defaults(spots_created(old_names, k as int), old_reg.next_id),
            created_count == spots_created(old_names, k as int).len(),
            registry.next_id == old_reg.next_id,
            registry.total_count == old_reg.total_count,
            registry.bump == old_reg.bump,
            registry.scenic_accepted_reviews == old_reg.scenic_accepted_reviews,
            registry.scenic_latest_detail_version == old_reg.scenic_latest_detail_version,
            spots@.len() == k,
            forall|j: int| 0 <= j < k ==>
                is_default_spot_account(#[trigger] spots@[j], j, spots_created(old_names, k as int).contains(j), admin, now),
        decreases DEFAULT_SPOT_COUNT - k,
    {
        let ghost prev = spots_created(old_names, k as int);
        proof {
            lemma_spots_created_shape(old_names, k as int);
            lemma_spots_created_shape(old_names, DEFAULT_SPOT_COUNT as int);
            lemma_spots_created_prefix(old_names, k as int + 1, DEFAULT_SPOT_COUNT as int);
        }
        let (id, name, location, tags, description) = default_spot_texts(k);
        let name_text = String::from_str(name);
        if name_registered(&registry.name_to_id, &name_text) {
            assert(spots_created(old_names, k + 1) == prev);
            spots.push(blank_spot());
            assert forall|j: int| 0 <= j < k + 1 implies
                is_default_spot_account(#[trigger] spots@[j], j, spots_created(old_names, k + 1).contains(j), admin, now) by {
                if j == k {
                    assert(!prev.contains(j));
                }
            }
        } else {
            let ghost next = prev.push(k as int);
            assert(spots_created(old_names, k + 1) == next);
            let ghost names_before = registry.name_to_id@;
            let ghost ids_before = registry.id_to_name@;
            let ghost extra_before = registry.extra_scenic_data@;
            registry.name_to_id.push(NameToId { name: name_text.clone(), id });
            registry.id_to_name.push(IdToName { id, name: name_text.clone() });
            registry.extra_scenic_data.push(ExtraScenicData {
                id,
                location: String::from_str(location),
                tags: String::from_str(tags),
                rating_bits: 0,
                description: String::from_str(description),
            });
            assert(default_names(next) =~= default_names(prev).push(default_spot(k as int).1));
            assert(registry.names() =~= name_to_id_names(names_before).push(default_spot(k as int).1));
            assert(registry.names() =~= old_names + default_names(next));
            assert(default_name_entries(next) =~= default_name_entries(prev).push((default_spot(k as int).1, id)));
            assert(name_entries(registry.name_to_id@) =~= name_entries(names_before).push((default_spot(k as int).1, id)));
            assert(name_entries(registry.name_to_id@) =~= name_entries(old_reg.name_to_id@) + default_name_entries(next));
            assert(default_id_entries(next) =~= default_id_entries(prev).push((id, default_spot(k as int).1)));
            assert(id_entries(registry.id_to_name@) =~= id_entries(ids_before).push((id, default_spot(k as int).1)));
            assert(id_entries(registry.id_to_name@) =~= id_entries(old_reg.id_to_name@) + default_id_entries(next));
            assert(default_extra_entries(next) =~= default_extra_entries(prev).push(
                (id, default_spot(k as int).2, default_spot(k as int).3, 0u64, default_spot(k as int).4)));
            assert(extra_entries(registry.extra_scenic_data@) =~= extra_entries(extra_before).push(
                (id, default_spot(k as int).2, default_spot(k as int).3, 0u64, default_spot(k as int).4)));
            assert(extra_entries(registry.extra_scenic_data@) =~= extra_entries(old_reg.extra_scenic_data@) + default_extra_entries(next));
            spots.push(ScenicSpot {
                id,
                admin,
                name: name_text,
                location: String::from_str(location),
                tags: String::from_str(tags),
                base_rating_bits: 0,
                created_at: now,
                is_active: true,
                accepted_review_count: 0,
                description: String::from_str(description),
            });
            current_id = id + 1;
            created_count = created_count + 1;
            assert forall|j: int| 0 <= j < k + 1 implies
                is_default_spot_account(#[trigger] spots@[j], j, next.contains(j), admin, now) by {
                if j < k {
                    assert(prev.contains(j) <==> next.contains(j)) by {
                        if next.contains(j) {
                            let i = choose|i: int| 0 <= i < next.len() && next[i] == j;
                            assert(i < prev.len());
                            assert(prev[i] == j);
                        }
                        if prev.contains(j) {
                            let i = choose|i: int| 0 <= i < prev.len() && prev[i] == j;
                            assert(next[i] == j);
                        }
                    }
                } else {
                    assert(next[next.len() - 1] == j);
                }
            }
        }
        k = k + 1;
    }
    registry.next_id = current_id;
    registry.total_count = registry.total_count + created_count;
    config.default_spots_created = true;
    proof {
        if old_reg.wf() {
            lemma_defaults_keep_wf(old_reg, *registry, spots_created(old_names, DEFAULT_SPOT_COUNT as int));
        }
        if old_reg.names_mirrored() {
            lemma_defaults_keep_names_mirrored(old_reg, *registry, spots_created(old_names, DEFAULT_SPOT_COUNT as int));
        }
    }
    Ok(DefaultSpots {
        spots,
        event: DefaultScenicSpotsCreated { admin, count: created_count, timestamp: now },
    })
}

/// Names of the default spots created over distinct names stay distinct.
proof fn lemma_spots_created_distinct(names: Seq<Seq<char>>, k: int)
    requires
        0 <= k,
        forall|i: int, j: int| 0 <= i < j < names.len() ==> #[trigger] names[i] != #[trigger] names[j],
    ensures
        forall|i: int, j: int| 0 <= i < j < (names + default_names(spots_created(names, k))).len()
            ==> #[trigger] (names + default_names(spots_created(names, k)))[i]
                != #[trigger] (names + default_names(spots_created(names, k)))[j],
    decreases k,
{
    if k > 0 {
        lemma_spots_created_distinct(names, k - 1);
        let prev = spots_created(names, k - 1);
        let all_prev = names + default_names(prev);
        if !all_prev.contains(default_spot(k - 1).1) {
            let next = prev.push(k - 1);
            assert(names + default_names(next) =~= all_prev.push(default_spot(k - 1).1));
            let grown = all_prev.push(default_spot(k - 1).1);
            assert forall|i: int, j: int| 0 <= i < j < grown.len() implies
                #[trigger] grown[i] != #[trigger] grown[j] by {
                if j == all_prev.len() {
                    assert(all_prev[i] == grown[i]);
                }
            }
        }
    }
}

/// Registering default spots keeps a well-formed registry well formed.
proof fn lemma_defaults_keep_wf(before: ScenicIdRegistry, after: ScenicIdRegistry, created: Seq<int>)
    requires
        before.wf(),
        created == spots_created(before.names(), DEFAULT_SPOT_COUNT as int),
        after.names() == before.names() + default_names(created),
        name_entries(after.name_to_id@) == name_entries(before.name_to_id@) + default_name_entries(created),
        id_entries(after.id_to_name@) == id_entries(before.id_to_name@) + default_id_entries(created),
        extra_entries(after.extra_scenic_data@) == extra_entries(before.extra_scenic_data@) + default_extra_entries(created),
        after.total_count == before.total_count + created.len(),
    ensures
        after.wf(),
{
    let n = before.name_to_id@.len() as int;
    assert(name_entries(after.name_to_id@).len() == after.name_to_id@.len());
    assert(id_entries(after.id_to_name@).len() == after.id_to_name@.len());
    assert(extra_entries(after.extra_scenic_data@).len() == after.extra_scenic_data@.len());
    assert forall|i: int| 0 <= i < after.name_to_id@.len() implies {
        &&& #[trigger] after.name_to_id@[i].id == after.id_to_name@[i].id
        &&& after.name_to_id@[i].name@ == after.id_to_name@[i].name@
        &&& after.extra_scenic_data@[i].id == after.name_to_id@[i].id
    } by {
        assert(name_entries(after.name_to_id@)[i] == (after.name_to_id@[i].name@, after.name_to_id@[i].id));
        assert(id_entries(after.id_to_name@)[i] == (after.id_to_name@[i].id, after.id_to_name@[i].name@));
        assert(extra_entries(after.extra_scenic_data@)[i].0 == after.extra_scenic_data@[i].id);
        if i < n {
            assert(name_entries(before.name_to_id@)[i] == (before.name_to_id@[i].name@, before.name_to_id@[i].id));
            assert(id_entries(before.id_to_name@)[i] == (before.id_to_name@[i].id, before.id_to_name@[i].name@));
            assert(extra_entries(before.extra_scenic_data@)[i].0 == before.extra_scenic_data@[i].id);
            assert(before.name_to_id@[i].id == before.id_to_name@[i].id);
        }
    }
    lemma_spots_created_distinct(before.names(), DEFAULT_SPOT_COUNT as int);
    assert forall|i: int, j: int| 0 <= i < j < after.name_to_id@.len() implies
        #[trigger] after.name_to_id@[i].name@ != #[trigger] after.name_to_id@[j].name@ by {
        assert(after.names()[i] == after.name_to_id@[i].name@);
        assert(after.names()[j] == after.name_to_id@[j].name@);
    }
}

proof fn lemma_defaults_keep_names_mirrored(before: ScenicIdRegistry, after: ScenicIdRegistry, created: Seq<int>)
    requires
        before.names_mirrored(),
        created == spots_created(before.names(), DEFAULT_SPOT_COUNT as int),
        after.names() == before.names() + default_names(created),
        name_entries(after.name_to_id@) == name_entries(before.name_to_id@) + default_name_entries(created),
        id_entries(after.id_to_name@) == id_entries(before.id_to_name@) + default_id_entries(created),
    ensures
        after.names_mirrored(),
{
    let n = before.name_to_id@.len() as int;
    assert(name_entries(after.name_to_id@).len() == after.name_to_id@.len());
    assert(id_entries(after.id_to_name@).len() == after.id_to_name@.len());
    assert(name_entries(before.name_to_id@).len() == n);
    assert(id_entries(before.id_to_name@).len() == before.id_to_name@.len());
    assert(default_name_entries(created).len() == default_id_entries(created).len());
    assert(after.name_to_id@.len() == after.id_to_name@.len());
    assert forall|i: int| 0 <= i < after.name_to_id@.len() implies {
        &&& #[trigger] after.name_to_id@[i].id == after.id_to_name@[i].id
        &&& after.name_to_id@[i].name@ == after.id_to_name@[i].name@
    } by {
        assert(name_entries(after.name_to_id@)[i] == (after.name_to_id@[i].name@, after.name_to_id@[i].id));
        assert(id_entries(after.id_to_name@)[i] == (after.id_to_name@[i].id, after.id_to_name@[i].name@));
        if i < n {
            assert(name_entries(before.name_to_id@)[i] == (before.name_to_id@[i].name@, before.name_to_id@[i].id));
            assert(id_entries(before.id_to_name@)[i] == (before.id_to_name@[i].id, before.id_to_name@[i].name@));
            assert(before.name_to_id@[i].id == before.id_to_name@[i].id);
        }
    }
    lemma_spots_created_distinct(before.names(), DEFAULT_SPOT_COUNT as int);
    assert forall|i: int, j: int| 0 <= i < j < after.name_to_id@.len() implies
        #[trigger] after.name_to_id@[i].name@ != #[trigger] after.name_to_id@[j].name@ by {
        assert(after.names()[i] == after.name_to_id@[i].name@);
        assert(after.names()[j] == after.name_to_id@[j].name@);
    }
}

/// The spots created among the first `k` are those created among the first
/// `m` that come before `k`; in particular, there are no more of them.
proof fn lemma_spots_created_prefix(names: Seq<Seq<char>>, k: int, m: int)
    requires
        0 <= k <= m,
    ensures
        spots_created(names, k).len() <= spots_created(names, m).len(),
    decreases m - k,
{
    if k < m {
        lemma_spots_created_prefix(names, k, m - 1);
    }
}


/// The bits of the 64-bit floats 1.0 and 5.0, the bounds of a spot's rating.
pub const SPOT_RATING_MIN_BITS: u64 = 0x3ff0_0000_0000_0000;
pub const SPOT_RATING_MAX_BITS: u64 = 0x4014_0000_0000_0000;

/// Whether a 64-bit float, given by its bits, lies in `1.0..=5.0`. Positive
/// floats order as their bits read as unsigned integers; negative floats and
/// NaNs have bits above those of 5.0, so the test on bits is exact.
pub open spec fn spot_rating_in_range(bits: u64) -> bool {
    SPOT_RATING_MIN_BITS <= bits <= SPOT_RATING_MAX_BITS
}

/// Why a spot's rating update is refused, checked in this order, if it is.
pub open spec fn update_rating_refusal(
    registry: ScenicIdRegistry,
    scenic_id: u64,
    new_rating_bits: u64,
    one_decimal: bool,
) -> Option<ScenicReviewError> {
    if !spot_rating_in_range(new_rating_bits) {
        Some(ScenicReviewError::InvalidRating)
    } else if !one_decimal {
        Some(ScenicReviewError::InvalidRatingPrecision)
    } else if first_position(extra_ids(registry.extra_scenic_data@), scenic_id) is None {
        Some(ScenicReviewError::ScenicSpotNotFound)
    } else {
        None
    }
}

/// A spot's new base rating, a float in `1.0..=5.0` given by its bits, with
/// at most one decimal (`one_decimal`, which the caller computes on the
/// float): it is set on the spot and on the registry's extra data of the
/// spot, which must exist.
#[verifier::spinoff_prover]
#[verifier::rlimit(40)]
pub fn update_scenic_rating(
    scenic_spot: &mut ScenicSpot,
    registry: &mut ScenicIdRegistry,
    scenic_id: u64,
    new_rating_bits: u64,
    one_decimal: bool,
) -> (r: Result<(), ScenicReviewError>)
    ensures
        r is Err <==> update_rating_refusal(*old(registry), scenic_id, new_rating_bits, one_decimal) is Some,
        r matches Err(e) ==> Some(e) == update_rating_refusal(*old(registry), scenic_id, new_rating_bits, one_decimal)
            && *final(scenic_spot) == *old(scenic_spot) && *final(registry) == *old(registry),
        r is Ok ==> {
            let i = first_position(extra_ids(old(registry).extra_scenic_data@), scenic_id)->Some_0;
            &&& final(scenic_spot).base_rating_bits == new_rating_bits
            &&& final(scenic_spot).id == old(scenic_spot).id
            &&& final(scenic_spot).admin == old(scenic_spot).admin
            &&& final(scenic_spot).name == old(scenic_spot).name
            &&& final(scenic_spot).location == old(scenic_spot).location
            &&& final(scenic_spot).tags == old(scenic_spot).tags
            &&& final(scenic_spot).created_at == old(scenic_spot).created_at
            &&& final(scenic_spot).is_active == old(scenic_spot).is_active
            &&& final(scenic_spot).accepted_review_count == old(scenic_spot).accepted_review_count
            &&& final(scenic_spot).description == old(scenic_spot).description
            &&& final(registry).extra_scenic_data@.len() == old(registry).extra_scenic_data@.len()
            &&& forall|j: int| 0 <= j < old(registry).extra_scenic_data@.len() && j != i
                ==> final(registry).extra_scenic_data@[j] == old(registry).extra_scenic_data@[j]
            &&& final(registry).extra_scenic_data@[i].rating_bits == new_rating_bits
            &&& final(registry).extra_scenic_data@[i].id == old(registry).extra_scenic_data@[i].id
            &&& final(registry).extra_scenic_data@[i].location == old(registry).extra_scenic_data@[i].location
            &&& final(registry).extra_scenic_data@[i].tags == old(registry).extra_scenic_data@[i].tags
            &&& final(registry).extra_scenic_data@[i].description == old(registry).extra_scenic_data@[i].description
            &&& final(registry).bump == old(registry).bump
            &&& final(registry).next_id == old(registry).next_id
            &&& final(registry).total_count == old(registry).total_count
            &&& final(registry).name_to_id == old(registry).name_to_id
            &&& final(registry).id_to_name == old(registry).id_to_name
            &&& final(registry).scenic_accepted_reviews == old(registry).scenic_accepted_reviews
            &&& final(registry).scenic_latest_detail_version == old(registry).scenic_latest_detail_version
            &&& old(registry).wf() ==> final(registry).wf()
        },
{
    if !(SPOT_RATING_MIN_BITS <= new_rating_bits && new_rating_bits <= SPOT_RATING_MAX_BITS) {
        return Err(ScenicReviewError::InvalidRating);
    }
    if !one_decimal {
        return Err(ScenicReviewError::InvalidRatingPrecision);
    }
    match find_extra(&registry.extra_scenic_data, scenic_id) {
        None => Err(ScenicReviewError::ScenicSpotNotFound),
        Some(i) => {
            scenic_spot.base_rating_bits = new_rating_bits;
            set_extra_rating(registry, i, new_rating_bits);
            Ok(())
        },
    }
}

/// Sets the rating of the `i`-th extra data of the registry.
fn set_extra_rating(registry: &mut ScenicIdRegistry, i: usize, rating_bits: u64)
    requires
        i < old(registry).extra_scenic_data@.len(),
    ensures
        final(registry).extra_scenic_data@.len() == old(registry).extra_scenic_data@.len(),
        forall|j: int| 0 <= j < old(registry).extra_scenic_data@.len() && j != i
            ==> final(registry).extra_scenic_data@[j] == old(registry).extra_scenic_data@[j],
        final(registry).extra_scenic_data@[i as int].rating_bits == rating_bits,
        final(registry).extra_scenic_data@[i as int].id == old(registry).extra_scenic_data@[i as int].id,
        final(registry).extra_scenic_data@[i as int].location == old(registry).extra_scenic_data@[i as int].location,
        final(registry).extra_scenic_data@[i as int].tags == old(registry).extra_scenic_data@[i as int].tags,
        final(registry).extra_scenic_data@[i as int].description == old(registry).extra_scenic_data@[i as int].description,
        final(registry).bump == old(registry).bump,
        final(registry).next_id == old(registry).next_id,
        final(registry).total_count == old(registry).total_count,
        final(registry).name_to_id == old(registry).name_to_id,
        final(registry).id_to_name == old(registry).id_to_name,
        final(registry).scenic_accepted_reviews == old(registry).scenic_accepted_reviews,
        final(registry).scenic_latest_detail_version == old(registry).scenic_latest_detail_version,
{
    let e = &registry.extra_scenic_data[i];
    let updated = ExtraScenicData {
        id: e.id,
        location: e.location.clone(),
        tags: e.tags.clone(),
        rating_bits,
        description: e.description.clone(),
    };
    registry.extra_scenic_data.set(i, updated);
}

/// A registered spot as the spot query shows it.
#[derive(Clone, Debug)]
pub struct ScenicSpotInfo {
    pub id: u64,
    pub name: String,
    pub location: String,
    pub tags: String,
    pub rating_bits: u64,
    pub description: String,
}

/// Every spot with extra data in the registry, in order, named after its
/// first `id_to_name` entry (or with an empty name when there is none).
pub fn get_default_scenic_spots(registry: &ScenicIdRegistry) -> (r: Vec<ScenicSpotInfo>)
    ensures
        r@.len() == registry.extra_scenic_data@.len(),
        forall|k: int| 0 <= k < r@.len() ==> {
            let e = registry.extra_scenic_data@[k];
            let info = #[trigger] r@[k];
            &&& info.id == e.id
            &&& info.name@ == match registry.name_of(e.id) {
                Some(n) => n,
                None => Seq::<char>::empty(),
            }
            &&& info.location@ == e.location@
            &&& info.tags@ == e.tags@
            &&& info.rating_bits == e.rating_bits
            &&& info.description@ == e.description@
        },
{
    let mut r: Vec<ScenicSpotInfo> = Vec::new();
    let mut k: usize = 0;
    while k < registry.extra_scenic_data.len()
        invariant
            k <= registry.extra_scenic_data@.len(),
            r@.len() == k,
            forall|j: int| 0 <= j < k ==> {
                let e = registry.extra_scenic_data@[j];
                let info = #[trigger] r@[j];
                &&& info.id == e.id
                &&& info.name@ == match registry.name_of(e.id) {
                    Some(n) => n,
                    None => Seq::<char>::empty(),
                }
                &&& info.location@ == e.location@
                &&& info.tags@ == e.tags@
                &&& info.rating_bits == e.rating_bits
                &&& info.description@ == e.description@
            },
        decreases registry.extra_scenic_data@.len() - k,
    {
        let e = &registry.extra_scenic_data[k];
        let name = match find_id_to_name(&registry.id_to_name, e.id) {
            Some(i) => registry.id_to_name[i].name.clone(),
            None => String::new(),
        };
        r.push(ScenicSpotInfo {
            id: e.id,
            name,
            location: e.location.clone(),
            tags: e.tags.clone(),
            rating_bits: e.rating_bits,
            description: e.description.clone(),
        });
        k = k + 1;
    }
    r
}

/// The accepted-review counters after setting the one of `id` to `count`:
/// the first counter of `id` is set, or a counter is added.
pub open spec fn accepted_set(s: Seq<ScenicAcceptedReviews>, id: u64, count: u32) -> Seq<ScenicAcceptedReviews> {
    match first_position(accepted_ids(s), id) {
        Some(i) => s.update(i, ScenicAcceptedReviews { scenic_id: id, count }),
        None => s.push(ScenicAcceptedReviews { scenic_id: id, count }),
    }
}

/// The administrator's correction of a spot's count of accepted reviews;
/// a nonzero multiple of the batch size announces a batch. Refused to anyone
/// but the administrator `admin`.
pub fn sync_scenic_review_count(
    config: &Config,
    registry: &mut ScenicIdRegistry,
    admin: Key,
    scenic_id: u64,
    correct_count: u32,
    now: i64,
) -> (r: Result<Option<ReviewBatchReady>, ScenicReviewError>)
    ensures
        r is Err <==> config.admin != admin,
        r matches Err(e) ==> e == ScenicReviewError::NotAdmin && *final(registry) == *old(registry),
        r matches Ok(batch) ==> {
            &&& final(registry).scenic_accepted_reviews@
                == accepted_set(old(registry).scenic_accepted_reviews@, scenic_id, correct_count)
            &&& final(registry).bump == old(registry).bump
            &&& final(registry).next_id == old(registry).next_id
            &&& final(registry).total_count == old(registry).total_count
            &&& final(registry).name_to_id == old(registry).name_to_id
            &&& final(registry).id_to_name == old(registry).id_to_name
            &&& final(registry).extra_scenic_data == old(registry).extra_scenic_data
            &&& final(registry).scenic_latest_detail_version == old(registry).scenic_latest_detail_version
            &&& batch is Some <==> correct_count > 0 && correct_count % REVIEW_BATCH_SIZE == 0
            &&& batch matches Some(b) ==> b == (ReviewBatchReady {
                scenic_pda: zero_key(),
                scenic_id,
                batch_size: REVIEW_BATCH_SIZE,
                total_reviews: correct_count,
                trigger_time: now,
            })
        },
        old(registry).wf() ==> final(registry).wf(),
{
    if let Err(e) = check_admin(config, &admin) {
        return Err(e);
    }
    match find_accepted(&registry.scenic_accepted_reviews, scenic_id) {
        Some(i) => {
            registry.scenic_accepted_reviews.set(i, ScenicAcceptedReviews { scenic_id, count: correct_count });
        },
        None => {
            registry.scenic_accepted_reviews.push(ScenicAcceptedReviews { scenic_id, count: correct_count });
        },
    }
    if correct_count > 0 && correct_count % REVIEW_BATCH_SIZE == 0 {
        Ok(Some(ReviewBatchReady {
            scenic_pda: default_key(),
            scenic_id,
            batch_size: REVIEW_BATCH_SIZE,
            total_reviews: correct_count,
            trigger_time: now,
        }))
    } else {
        Ok(None)
    }
}

} // verus!
