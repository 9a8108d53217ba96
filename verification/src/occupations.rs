use vstd::prelude::*;

verus! {

/// The fixed occupation taxonomy offered for user-facing filtering.  It is
/// distinct from the free-text `occupation` field of a record, which carries
/// whatever category label the source supplied.
#[derive(Clone, Copy, PartialEq, Eq, Hash, Debug, Structural)]
pub enum OccupationType {
    AdministrationEkonomiJuridik,
    ByggAnlaggning,
    CheferVerksamhetsledare,
    DataIT,
    ForsaljningInkopMarknadsforing,
    Hantverksyrken,
    HotellRestaurangStorhushall,
    HalsoSjukvard,
    IndustriellTillverkning,
    InstallationDriftUnderhall,
    KroppsSkonhetsvard,
    KulturMediaDesign,
    Militar,
    Naturbruk,
    Naturvetenskapligt,
    Pedagogiskt,
    SaneringRenhallning,
    Socialt,
    Sakerhet,
    Teknisk,
    Transport,
}

impl OccupationType {
    /// The display label of the category: its words separated by spaces,
    /// except the Data/IT category which keeps its slashed form.
    pub open spec fn readable_spec(self) -> Seq<char> {
        match self {
            OccupationType::AdministrationEkonomiJuridik => "Administration Ekonomi Juridik"@,
            OccupationType::ByggAnlaggning => "Bygg Anläggning"@,
            OccupationType::CheferVerksamhetsledare => "Chefer Verksamhetsledare"@,
            OccupationType::DataIT => "Data/IT"@,
            OccupationType::ForsaljningInkopMarknadsforing => "Försäljning Inköp Marknadsföring"@,
            OccupationType::Hantverksyrken => "Hantverksyrken"@,
            OccupationType::HotellRestaurangStorhushall => "Hotell Restaurang Storhushåll"@,
            OccupationType::HalsoSjukvard => "Hälso Sjukvård"@,
            OccupationType::IndustriellTillverkning => "Industriell Tillverkning"@,
            OccupationType::InstallationDriftUnderhall => "Installation Drift Underhåll"@,
            OccupationType::KroppsSkonhetsvard => "Kropps Skönhetsvård"@,
            OccupationType::KulturMediaDesign => "Kultur Media Design"@,
            OccupationType::Militar => "Militär"@,
            OccupationType::Naturbruk => "Naturbruk"@,
            OccupationType::Naturvetenskapligt => "Naturvetenskapligt"@,
            OccupationType::Pedagogiskt => "Pedagogiskt"@,
            OccupationType::SaneringRenhallning => "Sanering Renhållning"@,
            OccupationType::Socialt => "Socialt"@,
            OccupationType::Sakerhet => "Säkerhet"@,
            OccupationType::Teknisk => "Teknisk"@,
            OccupationType::Transport => "Transport"@,
        }
    }

    /// The display label of the category.
    pub fn as_readable_string(&self) -> (label: String)
        ensures
            label@ == self.readable_spec(),
    {
        let text: &str = match self {
            OccupationType::AdministrationEkonomiJuridik => "Administration Ekonomi Juridik",
            OccupationType::ByggAnlaggning => "Bygg Anläggning",
            OccupationType::CheferVerksamhetsledare => "Chefer Verksamhetsledare",
            OccupationType::DataIT => "Data/IT",
            OccupationType::ForsaljningInkopMarknadsforing => "Försäljning Inköp Marknadsföring",
            OccupationType::Hantverksyrken => "Hantverksyrken",
            OccupationType::HotellRestaurangStorhushall => "Hotell Restaurang Storhushåll",
            OccupationType::HalsoSjukvard => "Hälso Sjukvård",
            OccupationType::IndustriellTillverkning => "Industriell Tillverkning",
            OccupationType::InstallationDriftUnderhall => "Installation Drift Underhåll",
            OccupationType::KroppsSkonhetsvard => "Kropps Skönhetsvård",
            OccupationType::KulturMediaDesign => "Kultur Media Design",
            OccupationType::Militar => "Militär",
            OccupationType::Naturbruk => "Naturbruk",
            OccupationType::Naturvetenskapligt => "Naturvetenskapligt",
            OccupationType::Pedagogiskt => "Pedagogiskt",
            OccupationType::SaneringRenhallning => "Sanering Renhållning",
            OccupationType::Socialt => "Socialt",
            OccupationType::Sakerhet => "Säkerhet",
            OccupationType::Teknisk => "Teknisk",
            OccupationType::Transport => "Transport",
        };
        text.to_owned()
    }
}

} // verus!
