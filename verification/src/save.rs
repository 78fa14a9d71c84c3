//! The document model of an archived world.
//!
//! An archive of the simulation that runs on a world is a tree of records:
//! the groups of people in the cells, their cultures, the factions and
//! polities that they form, the regions and the languages. The records hold
//! the archive's values as it writes them, which is as text for the most
//! part. These types give the tree its shape; reading and writing an archive
//! is left to the program that holds one.

use vstd::prelude::*;

verus! {

#[derive(Debug)]
pub struct Save {
    pub world: World,
}

#[derive(Debug)]
pub struct World {
    pub events_triggered: String,
    pub events_evaluated: String,
    pub mod_paths: ExistingDiscoveryIds,
    pub layer_settings: String,
    pub events_to_happen: EventsToHappen,
    pub terrain_cell_alteration_list: TerrainCellAlterationList,
    pub cultural_preference_info_list: CulturalPreferenceInfoList,
    pub cultural_activity_info_list: CulturalActivityInfoList,
    pub cultural_skill_info_list: CulturalSkillInfoList,
    pub cultural_knowledge_info_list: CulturalKnowledgeInfoList,
    pub existing_discovery_ids: ExistingDiscoveryIds,
    pub cell_groups: CellGroups,
    pub memorable_agents: String,
    pub faction_infos: FactionInfos,
    pub polity_infos: PolityInfos,
    pub region_infos: RegionInfos,
    pub languages: Languages,
    pub event_message_ids: EventMessageIdsClass,
    pub xmlns_xsd: String,
    pub xmlns_xsi: String,
    pub width: String,
    pub height: String,
    pub seed: String,
    pub current_date: String,
    pub max_time_to_skip: String,
    pub cell_group_count: String,
    pub memorable_agent_count: String,
    pub faction_count: String,
    pub polity_count: String,
    pub region_count: String,
    pub language_count: String,
    pub terrain_cell_alteration_list_count: String,
    pub altitude_scale: String,
    pub sea_level_offset: String,
    pub river_strength: String,
    pub rainfall_offset: String,
    pub temperature_offset: String,
    pub serialized_event_count: String,
}

#[derive(Debug)]
pub struct CellGroups {
    pub cell_group: Vec<CellGroup>,
}

#[derive(Debug)]
pub struct CellGroup {
    pub sea_migration_route: Option<SeaMigrationRoute>,
    pub flags: Flags,
    pub culture: CellGroupCulture,
    pub properties: PropertiesUnion,
    pub faction_core_ids: String,
    pub polity_prominences: PolityProminencesUnion,
    pub last_population_migration: LastPopulationMigration,
    pub id: String,
    pub mt: String,
    pub pep: String,
    pub ep: String,
    pub p: String,
    pub lud: String,
    pub nud: String,
    pub uesd: String,
    pub op: String,
    pub lo: String,
    pub la: String,
    pub stf: String,
    pub tpp: String,
    pub m_ev: String,
    pub md: String,
    pub msd: String,
    pub m_lo: String,
    pub m_la: String,
    pub med: String,
    pub met: String,
    pub mp_per: String,
    pub tf_ev: String,
    pub tfd: String,
    pub ar_m: String,
    pub ac_m: String,
    pub nv_m: String,
    pub mpp_id: String,
}

#[derive(Debug)]
pub struct CellGroupCulture {
    pub preferences: PurplePreferences,
    pub activities: PurpleActivities,
    pub skills: PurpleSkills,
    pub knowledges: PurpleKnowledges,
    pub discovery_ids: DiscoveryIds,
    pub knowledge_limits: KnowledgeLimits,
    pub l_id: String,
}

#[derive(Debug)]
pub struct PurpleActivities {
    pub cultural_activity: CulturalActivity,
}

#[derive(Debug)]
pub struct Cultural {
    pub xsi_type: Option<CulturalActivityXsiType>,
    pub id: CulturalActivityId,
    pub v: String,
    pub c: Option<String>,
    pub ro: Option<String>,
    pub al: Option<String>,
}

#[derive(Debug)]
pub struct DiscoveryIds {
    pub string: StringUnion,
}

#[derive(Debug)]
pub struct KnowledgeLimits {
    pub knowledge_limit: Vec<KnowledgeLimit>,
}

#[derive(Debug)]
pub struct KnowledgeLimit {
    pub id: CulturalActivityId,
    pub v: String,
}

#[derive(Debug)]
pub struct PurpleKnowledges {
    pub cultural_knowledge: Vec<Cultural>,
}

#[derive(Debug)]
pub struct PurplePreferences {
    pub cultural_preference: Vec<Cultural>,
}

#[derive(Debug)]
pub struct PurpleSkills {
    pub cultural_skill: Vec<Cultural>,
}

#[derive(Debug)]
pub struct LastPopulationMigration {
    pub p: String,
    pub sd: String,
    pub ed: String,
    pub sg_id: String,
    pub p_id: String,
}

#[derive(Debug)]
pub struct PolityProminencesClass {
    pub polity_prominence: PolityProminence,
}

#[derive(Debug)]
pub struct PolityProminence {
    pub v: String,
    pub fct: String,
    pub pd: String,
    pub p: String,
    pub cf_id: String,
    pub p_id: String,
}

#[derive(Debug)]
pub struct PropertiesClass {
    pub string: String,
}

#[derive(Debug)]
pub struct SeaMigrationRoute {
    pub u: String,
    pub c: String,
    pub cd: String,
    pub s_lo: String,
    pub s_la: String,
}

#[derive(Debug)]
pub struct CulturalActivityInfoList {
    pub cultural_activity_info: Vec<CulturalActivityInfo>,
}

#[derive(Debug)]
pub struct CulturalActivityInfo {
    pub id: String,
}

#[derive(Debug)]
pub struct CulturalKnowledgeInfoList {
    pub cultural_knowledge_info: Vec<CulturalActivityInfo>,
}

#[derive(Debug)]
pub struct CulturalPreferenceInfoList {
    pub cultural_preference_info: Vec<CulturalActivityInfo>,
}

#[derive(Debug)]
pub struct CulturalSkillInfoList {
    pub cultural_skill_info: Vec<CulturalActivityInfo>,
}

#[derive(Debug)]
pub struct EventMessageIdsClass {
    pub long: String,
}

#[derive(Debug)]
pub struct EventsToHappen {
    pub faction_mod_event: Vec<FactionModEvent>,
    pub cell_group_mod_event: Vec<CellGroupModEvent>,
}

#[derive(Debug)]
pub struct CellGroupModEvent {
    pub group_id: CulturalActivityInfo,
    pub t_id: String,
    pub td: String,
    pub sd: String,
    pub id: String,
    pub gen_id: String,
}

#[derive(Debug)]
pub struct FactionModEvent {
    pub t_id: String,
    pub td: String,
    pub sd: String,
    pub id: String,
    pub f_id: String,
    pub op_id: String,
    pub gen_id: String,
}

#[derive(Debug)]
pub struct ExistingDiscoveryIds {
    pub string: Vec<ExistingDiscoveryIdsString>,
}

#[derive(Debug)]
pub struct FactionInfos {
    pub faction_info: Vec<FactionInfo>,
}

#[derive(Debug)]
pub struct FactionInfo {
    pub name: Name,
    pub faction: Option<Faction>,
    pub id: String,
    pub t: FactionInfoT,
}

#[derive(Debug)]
pub struct Faction {
    pub flags: Flags,
    pub culture: FactionCulture,
    pub relationships: RelationshipsUnion,
    pub event_data_list: String,
    pub last_leader: LastLeader,
    pub xsi_type: FactionXsiType,
    pub inf: String,
    pub sp: String,
    pub is_dom: String,
    pub last_up_date: String,
    pub lead_st_date: String,
    pub is_con: String,
    pub p_id: String,
    pub cg_id: String,
}

#[derive(Debug)]
pub struct FactionCulture {
    pub preferences: FluffyPreferences,
    pub activities: FluffyActivities,
    pub skills: FluffySkills,
    pub knowledges: FluffyKnowledges,
    pub discovery_ids: ExistingDiscoveryIds,
    pub l_id: String,
}

#[derive(Debug)]
pub struct FluffyActivities {
    pub cultural_activity: Vec<Cultural>,
}

#[derive(Debug)]
pub struct FluffyKnowledges {
    pub cultural_knowledge: Vec<KnowledgeLimit>,
}

#[derive(Debug)]
pub struct FluffyPreferences {
    pub cultural_preference: Vec<KnowledgeLimit>,
}

#[derive(Debug)]
pub struct FluffySkills {
    pub cultural_skill: Vec<KnowledgeLimit>,
}

#[derive(Debug)]
pub struct LastLeader {
    pub birth_cell_position: Position,
    pub id: String,
    pub fem: String,
    pub cha: String,
    pub wis: String,
    pub sp: String,
    pub l_id: String,
    pub r_id: String,
}

#[derive(Debug)]
pub struct Position {
    pub x: String,
    pub y: String,
}

#[derive(Debug)]
pub struct RelationshipsClass {
    pub faction_relationship: FactionRelationshipUnion,
}

#[derive(Debug)]
pub struct FactionRelationshipElement {
    pub id: String,
    pub val: String,
}

#[derive(Debug)]
pub struct Name {
    pub tm: String,
    pub l_id: String,
}

#[derive(Debug)]
pub struct Languages {
    pub language: Vec<Language>,
}

#[derive(Debug)]
pub struct Language {
    pub article_syllables: Syllables,
    pub derivative_article_start_syllables: Syllables,
    pub derivative_article_next_syllables: Syllables,
    pub noun_indicative_syllables: Syllables,
    pub derivative_noun_indicative_start_syllables: Syllables,
    pub derivative_noun_indicative_next_syllables: Syllables,
    pub verb_indicative_syllables: Syllables,
    pub derivative_verb_indicative_start_syllables: Syllables,
    pub derivative_verb_indicative_next_syllables: Syllables,
    pub adposition_start_syllables: Syllables,
    pub adposition_next_syllables: Syllables,
    pub adjective_start_syllables: Syllables,
    pub adjective_next_syllables: Syllables,
    pub noun_start_syllables: Syllables,
    pub noun_next_syllables: Syllables,
    pub verb_start_syllables: Syllables,
    pub verb_next_syllables: Syllables,
    pub articles: Articles,
    pub noun_indicatives: NounIndicatives,
    pub verb_indicatives: NounIndicatives,
    pub adpositions: AdpositionsUnion,
    pub adjectives: Adjectives,
    pub nouns: Nouns,
    pub verbs: String,
    pub id: String,
    pub ap: String,
    pub nip: String,
    pub vip: String,
    pub aap: String,
    pub niap: String,
    pub viap: String,
    pub adp_ap: String,
    pub adj_ap: String,
    pub nap: String,
}

#[derive(Debug)]
pub struct Syllables {
    pub osalc: String,
    pub nsalc: String,
    pub csalc: String,
}

#[derive(Debug)]
pub struct Nouns {
    pub morpheme: MorphemeUnion,
}

#[derive(Debug)]
pub struct MorphemeElement {
    pub m: String,
    pub v: String,
    pub t: MorphemeT,
    pub p: String,
}

#[derive(Debug)]
pub struct AdpositionsClass {
    pub morpheme: MorphemeElement,
}

#[derive(Debug)]
pub struct NounIndicatives {
    pub morpheme: Vec<MorphemeElement>,
}

#[derive(Debug)]
pub struct PolityInfos {
    pub polity_info: Vec<PolityInfo>,
}

#[derive(Debug)]
pub struct PolityInfo {
    pub name: Name,
    pub polity: Option<Polity>,
    pub polity_info_type: Type,
    pub id: String,
    pub t: PolityInfoT,
}

#[derive(Debug)]
pub struct Polity {
    pub core_region_ids: Ids,
    pub prominence_clusters: ProminenceClusters,
    pub territory: Territory,
    pub culture: PolityCulture,
    pub faction_ids: Ids,
    pub event_message_ids: EventMessageIdsUnion,
    pub event_data_list: String,
    pub xsi_type: Type,
    pub ac: String,
    pub p: String,
    pub a: String,
    pub crs: String,
    pub nc: String,
    pub sp: String,
    pub polity_if: String,
    pub df_id: String,
    pub cg_id: String,
}

#[derive(Debug)]
pub struct Ids {
    pub identifier: Identifier,
}

#[derive(Debug)]
pub struct PolityCulture {
    pub preferences: FluffyPreferences,
    pub activities: FluffyActivities,
    pub skills: FluffySkills,
    pub knowledges: PurpleKnowledges,
    pub discovery_ids: ExistingDiscoveryIds,
    pub l_id: String,
}

#[derive(Debug)]
pub struct ProminenceClusters {
    pub polity_prominence_cluster: PolityProminenceClusterUnion,
}

#[derive(Debug)]
pub struct PolityProminenceClusterElement {
    pub prominence_ids: Ids,
    pub id: String,
    pub tac: String,
    pub tp: String,
    pub pa: String,
    pub nc: String,
    pub r_id: String,
}

#[derive(Debug)]
pub struct Territory {
    pub cell_positions: TerritoryCellPositions,
    pub enclosed_areas: EnclosedAreasUnion,
    pub region_accesses: RegionAccesses,
}

#[derive(Debug)]
pub struct TerritoryCellPositions {
    pub world_position: WorldPosition,
}

#[derive(Debug)]
pub struct EnclosedAreasClass {
    pub cell_area: CellAreaUnion,
}

#[derive(Debug)]
pub struct CellAreaElement {
    pub cell_positions: TerritoryCellPositions,
}

#[derive(Debug)]
pub struct PurpleCellArea {
    pub cell_positions: PurpleCellPositions,
}

#[derive(Debug)]
pub struct PurpleCellPositions {
    pub world_position: Position,
}

#[derive(Debug)]
pub struct RegionAccesses {
    pub region_access: RegionAccessUnion,
}

#[derive(Debug)]
pub struct RegionAccessElement {
    pub c: String,
    pub r_id: String,
}

#[derive(Debug)]
pub struct RegionInfos {
    pub region_info: Vec<RegionInfo>,
}

#[derive(Debug)]
pub struct RegionInfo {
    pub region: Region,
    pub origin_cell_position: Position,
    pub id: String,
    pub r: String,
    pub l_id: String,
}

#[derive(Debug)]
pub struct Region {
    pub cell_positions: Option<TerritoryCellPositions>,
    pub xsi_type: RegionXsiType,
    pub sub_region_ids: Option<SubRegionIds>,
}

#[derive(Debug)]
pub struct TerrainCellAlterationList {
    pub cell_alt: Vec<CellAlt>,
}

#[derive(Debug)]
pub struct CellAlt {
    pub layer_data: LayerDataUnion,
    pub lon: String,
    pub lat: String,
    pub ba: String,
    pub bt: String,
    pub br: String,
    pub bto: String,
    pub bro: String,
    pub fp: String,
    pub ar: String,
    pub acc: String,
    pub m: String,
}

#[derive(Debug)]
pub struct LayerDataClass {
    pub cell_layer_data: CellLayerData,
}

#[derive(Debug)]
pub struct CellLayerData {
    pub id: String,
    pub o: String,
}

#[derive(Debug)]
pub enum CulturalActivity {
    Cultural(Cultural),
    CulturalArray(Vec<Cultural>),
}

#[derive(Debug)]
pub enum StringUnion {
    Enum(FluffyString),
    EnumArray(Vec<PurpleString>),
}

#[derive(Debug)]
pub enum Flags {
    DiscoveryIds(DiscoveryIds),
    String(String),
}

#[derive(Debug)]
pub enum PolityProminencesUnion {
    PolityProminencesClass(PolityProminencesClass),
    String(String),
}

#[derive(Debug)]
pub enum PropertiesUnion {
    PropertiesClass(PropertiesClass),
    String(String),
}

#[derive(Debug)]
pub enum RelationshipsUnion {
    RelationshipsClass(RelationshipsClass),
    String(String),
}

#[derive(Debug)]
pub enum FactionRelationshipUnion {
    FactionRelationshipElement(FactionRelationshipElement),
    FactionRelationshipElementArray(Vec<FactionRelationshipElement>),
}

#[derive(Debug)]
pub enum Adjectives {
    Nouns(Nouns),
    String(String),
}

#[derive(Debug)]
pub enum MorphemeUnion {
    MorphemeElement(MorphemeElement),
    MorphemeElementArray(Vec<MorphemeElement>),
}

#[derive(Debug)]
pub enum AdpositionsUnion {
    AdpositionsClass(AdpositionsClass),
    String(String),
}

#[derive(Debug)]
pub enum Articles {
    NounIndicatives(NounIndicatives),
    String(String),
}

#[derive(Debug)]
pub enum Identifier {
    CulturalActivityInfo(CulturalActivityInfo),
    CulturalActivityInfoArray(Vec<CulturalActivityInfo>),
}

#[derive(Debug)]
pub enum EventMessageIdsUnion {
    EventMessageIdsClass(EventMessageIdsClass),
    String(String),
}

#[derive(Debug)]
pub enum PolityProminenceClusterUnion {
    PolityProminenceClusterElement(PolityProminenceClusterElement),
    PolityProminenceClusterElementArray(Vec<PolityProminenceClusterElement>),
}

#[derive(Debug)]
pub enum WorldPosition {
    Position(Position),
    PositionArray(Vec<Position>),
}

#[derive(Debug)]
pub enum EnclosedAreasUnion {
    EnclosedAreasClass(EnclosedAreasClass),
    String(String),
}

#[derive(Debug)]
pub enum CellAreaUnion {
    CellAreaElementArray(Vec<CellAreaElement>),
    PurpleCellArea(PurpleCellArea),
}

#[derive(Debug)]
pub enum RegionAccessUnion {
    RegionAccessElement(RegionAccessElement),
    RegionAccessElementArray(Vec<RegionAccessElement>),
}

#[derive(Debug)]
pub enum SubRegionIds {
    Ids(Ids),
    String(String),
}

#[derive(Debug)]
pub enum LayerDataUnion {
    LayerDataClass(LayerDataClass),
    String(String),
}

#[derive(Debug, Clone, Copy, PartialEq, Eq)]
pub enum CulturalActivityId {
    Aggression,
    Agriculture,
    Authority,
    BlackFungiSurvival,
    Cohesion,
    DesertSurvival,
    DeserticTundraSurvival,
    Farming,
    Fishing,
    Foraging,
    ForestSurvival,
    FungiSurvival,
    GrasslandSurvival,
    IceSheetSurvival,
    IceShelfSurvival,
    Isolation,
    RainforestSurvival,
    RedForestSurvival,
    ScarletDesertSurvival,
    Seafaring,
    Shipbuilding,
    SocialOrganization,
    TaigaSurvival,
    TundraSurvival,
}

#[derive(Debug, Clone, Copy, PartialEq, Eq)]
pub enum CulturalActivityXsiType {
    BiomeSurvivalSkill,
    CellCulturalActivity,
    CellCulturalPreference,
    PolityCulturalKnowledge,
    SeafaringSkill,
    ShipbuildingKnowledge,
    SocialOrganizationKnowledge,
}

#[derive(Debug, Clone, Copy, PartialEq, Eq)]
pub enum PurpleString {
    BoatMaking,
    ClanDecideFormNewTribeSet,
    ClanDecidePerformingInfluenceDemandSet,
    ClanDecideSplitSet,
    ExpandTowardRegionSet,
    GainPlantCultivationDiscoverySet,
    ImproveRelationshipWithNeighborsClanSet,
    Keels,
    Rudders,
    Sailing,
    Tribalism,
    TribeInvitesClanJoinSet,
}

#[derive(Debug, Clone, Copy, PartialEq, Eq)]
pub enum FluffyString {
    BoatMaking,
    ExpandTowardRegionSet,
    GainSailingDiscoverySet,
}

#[derive(Debug, Clone, Copy, PartialEq, Eq)]
pub enum ExistingDiscoveryIdsString {
    Aaaaaa,
    BoatMaking,
    Keels,
    ModsBase,
    ModsWeirdBiomesMod,
    PlantCultivation,
    Rudders,
    Sailing,
    Test,
    Tribalism,
}

#[derive(Debug, Clone, Copy, PartialEq, Eq)]
pub enum FactionXsiType {
    Clan,
}

#[derive(Debug, Clone, Copy, PartialEq, Eq)]
pub enum FactionInfoT {
    Clan,
}

#[derive(Debug, Clone, Copy, PartialEq, Eq)]
pub enum MorphemeT {
    Adjective,
    Adposition,
    Article,
    Indicative,
    Noun,
}

#[derive(Debug, Clone, Copy, PartialEq, Eq)]
pub enum Type {
    Tribe,
}

#[derive(Debug, Clone, Copy, PartialEq, Eq)]
pub enum PolityInfoT {
    Tribe,
}

#[derive(Debug, Clone, Copy, PartialEq, Eq)]
pub enum RegionXsiType {
    CellRegion,
    SuperRegion,
}

} // verus!
