//! Descriptions of the instrument that acquired the data: typed components
//! (mass analyzer, ion source, detector) carrying controlled-vocabulary
//! parameters, and the configuration that groups them.

use vstd::prelude::*;

verus! {

/// The controlled vocabulary a parameter belongs to.
#[derive(Debug, Clone, Copy, PartialEq, Eq, Structural)]
pub enum ControlledVocabulary {
    MS,
    Unknown,
}

/// A flat key-value parameter, optionally tied to a controlled-vocabulary
/// accession number.
#[derive(Debug, Clone, PartialEq, Eq)]
pub struct Param {
    pub name: String,
    pub value: String,
    pub accession: Option<u32>,
    pub controlled_vocabulary: Option<ControlledVocabulary>,
}

/// The parameter belongs to the mass-spectrometry vocabulary.
pub open spec fn param_is_ms(p: Param) -> bool {
    p.controlled_vocabulary == Some(ControlledVocabulary::MS)
}

impl Param {
    /// Whether this parameter belongs to the mass-spectrometry vocabulary.
    pub fn is_ms(&self) -> (r: bool)
        ensures
            r == param_is_ms(*self),
    {
        match self.controlled_vocabulary {
            Some(ControlledVocabulary::MS) => true,
            _ => false,
        }
    }
}

/// A list of parameters, in insertion order.
pub type ParamList = Vec<Param>;

/// A distinguishing tag describing the part of an instrument a `Component`
/// refers to.
#[derive(Debug, Clone, Copy, PartialEq, Eq, Structural)]
pub enum ComponentType {
    /// A mass analyzer
    Analyzer,
    /// A source for ions
    IonSource,
    /// An abundance measuring device
    Detector,
    Unknown,
}

/// A mass-analyzer type of the controlled vocabulary.
#[derive(Debug, Clone, Copy, PartialEq, Eq, Structural)]
pub enum MassAnalyzerTerm {
    AxialEjectionLinearIonTrap,
    FourierTransformIonCyclotronResonanceMassSpectrometer,
    MagneticSector,
    Quadrupole,
    QuadrupoleIonTrap,
    RadialEjectionLinearIonTrap,
    TimeOfFlight,
    ElectrostaticEnergyAnalyzer,
    IonTrap,
    StoredWaveformInverseFourierTransform,
    Cyclotron,
    LinearIonTrap,
    MassAnalyzerType,
    Orbitrap,
    AsymmetricTrackLosslessTimeOfFlightAnalyzer,
}

/// The controlled-vocabulary accession number of a MassAnalyzerTerm.
pub open spec fn massanalyzerterm_accession(t: MassAnalyzerTerm) -> u32 {
    match t {
        MassAnalyzerTerm::AxialEjectionLinearIonTrap => 1000078,
        MassAnalyzerTerm::FourierTransformIonCyclotronResonanceMassSpectrometer => 1000079,
        MassAnalyzerTerm::MagneticSector => 1000080,
        MassAnalyzerTerm::Quadrupole => 1000081,
        MassAnalyzerTerm::QuadrupoleIonTrap => 1000082,
        MassAnalyzerTerm::RadialEjectionLinearIonTrap => 1000083,
        MassAnalyzerTerm::TimeOfFlight => 1000084,
        MassAnalyzerTerm::ElectrostaticEnergyAnalyzer => 1000254,
        MassAnalyzerTerm::IonTrap => 1000264,
        MassAnalyzerTerm::StoredWaveformInverseFourierTransform => 1000284,
        MassAnalyzerTerm::Cyclotron => 1000288,
        MassAnalyzerTerm::LinearIonTrap => 1000291,
        MassAnalyzerTerm::MassAnalyzerType => 1000443,
        MassAnalyzerTerm::Orbitrap => 1000484,
        MassAnalyzerTerm::AsymmetricTrackLosslessTimeOfFlightAnalyzer => 1003379,
    }
}

/// The MassAnalyzerTerm a controlled-vocabulary accession number names, if any.
pub open spec fn massanalyzerterm_from_accession(acc: u32) -> Option<MassAnalyzerTerm> {
    match acc {
        1000078u32 => Some(MassAnalyzerTerm::AxialEjectionLinearIonTrap),
        1000079u32 => Some(MassAnalyzerTerm::FourierTransformIonCyclotronResonanceMassSpectrometer),
        1000080u32 => Some(MassAnalyzerTerm::MagneticSector),
        1000081u32 => Some(MassAnalyzerTerm::Quadrupole),
        1000082u32 => Some(MassAnalyzerTerm::QuadrupoleIonTrap),
        1000083u32 => Some(MassAnalyzerTerm::RadialEjectionLinearIonTrap),
        1000084u32 => Some(MassAnalyzerTerm::TimeOfFlight),
        1000254u32 => Some(MassAnalyzerTerm::ElectrostaticEnergyAnalyzer),
        1000264u32 => Some(MassAnalyzerTerm::IonTrap),
        1000284u32 => Some(MassAnalyzerTerm::StoredWaveformInverseFourierTransform),
        1000288u32 => Some(MassAnalyzerTerm::Cyclotron),
        1000291u32 => Some(MassAnalyzerTerm::LinearIonTrap),
        1000443u32 => Some(MassAnalyzerTerm::MassAnalyzerType),
        1000484u32 => Some(MassAnalyzerTerm::Orbitrap),
        1003379u32 => Some(MassAnalyzerTerm::AsymmetricTrackLosslessTimeOfFlightAnalyzer),
        _ => None,
    }
}

/// The display name of a MassAnalyzerTerm.
pub open spec fn massanalyzerterm_name(t: MassAnalyzerTerm) -> Seq<char> {
    match t {
        MassAnalyzerTerm::AxialEjectionLinearIonTrap => "axial ejection linear ion trap"@,
        MassAnalyzerTerm::FourierTransformIonCyclotronResonanceMassSpectrometer => "fourier transform ion cyclotron resonance mass spectrometer"@,
        MassAnalyzerTerm::MagneticSector => "magnetic sector"@,
        MassAnalyzerTerm::Quadrupole => "quadrupole"@,
        MassAnalyzerTerm::QuadrupoleIonTrap => "quadrupole ion trap"@,
        MassAnalyzerTerm::RadialEjectionLinearIonTrap => "radial ejection linear ion trap"@,
        MassAnalyzerTerm::TimeOfFlight => "time-of-flight"@,
        MassAnalyzerTerm::ElectrostaticEnergyAnalyzer => "electrostatic energy analyzer"@,
        MassAnalyzerTerm::IonTrap => "ion trap"@,
        MassAnalyzerTerm::StoredWaveformInverseFourierTransform => "stored waveform inverse fourier transform"@,
        MassAnalyzerTerm::Cyclotron => "cyclotron"@,
        MassAnalyzerTerm::LinearIonTrap => "linear ion trap"@,
        MassAnalyzerTerm::MassAnalyzerType => "mass analyzer type"@,
        MassAnalyzerTerm::Orbitrap => "orbitrap"@,
        MassAnalyzerTerm::AsymmetricTrackLosslessTimeOfFlightAnalyzer => "asymmetric track lossless time-of-flight analyzer"@,
    }
}

/// The parent terms of a MassAnalyzerTerm, in table order.
pub open spec fn massanalyzerterm_parents(t: MassAnalyzerTerm) -> Seq<MassAnalyzerTerm> {
    match t {
        MassAnalyzerTerm::AxialEjectionLinearIonTrap => seq![MassAnalyzerTerm::LinearIonTrap],
        MassAnalyzerTerm::FourierTransformIonCyclotronResonanceMassSpectrometer => seq![MassAnalyzerTerm::MassAnalyzerType],
        MassAnalyzerTerm::MagneticSector => seq![MassAnalyzerTerm::MassAnalyzerType],
        MassAnalyzerTerm::Quadrupole => seq![MassAnalyzerTerm::MassAnalyzerType],
        MassAnalyzerTerm::QuadrupoleIonTrap => seq![MassAnalyzerTerm::IonTrap],
        MassAnalyzerTerm::RadialEjectionLinearIonTrap => seq![MassAnalyzerTerm::LinearIonTrap],
        MassAnalyzerTerm::TimeOfFlight => seq![MassAnalyzerTerm::MassAnalyzerType],
        MassAnalyzerTerm::ElectrostaticEnergyAnalyzer => seq![MassAnalyzerTerm::MassAnalyzerType],
        MassAnalyzerTerm::IonTrap => seq![MassAnalyzerTerm::MassAnalyzerType],
        MassAnalyzerTerm::StoredWaveformInverseFourierTransform => seq![MassAnalyzerTerm::MassAnalyzerType],
        MassAnalyzerTerm::Cyclotron => seq![MassAnalyzerTerm::MassAnalyzerType],
        MassAnalyzerTerm::LinearIonTrap => seq![MassAnalyzerTerm::IonTrap],
        MassAnalyzerTerm::MassAnalyzerType => Seq::empty(),
        MassAnalyzerTerm::Orbitrap => seq![MassAnalyzerTerm::MassAnalyzerType],
        MassAnalyzerTerm::AsymmetricTrackLosslessTimeOfFlightAnalyzer => seq![MassAnalyzerTerm::TimeOfFlight],
    }
}

impl MassAnalyzerTerm {
    /// The accession number of this term.
    pub fn accession(&self) -> (r: u32)
        ensures
            r == massanalyzerterm_accession(*self),
    {
        match self {
            MassAnalyzerTerm::AxialEjectionLinearIonTrap => 1000078,
            MassAnalyzerTerm::FourierTransformIonCyclotronResonanceMassSpectrometer => 1000079,
            MassAnalyzerTerm::MagneticSector => 1000080,
            MassAnalyzerTerm::Quadrupole => 1000081,
            MassAnalyzerTerm::QuadrupoleIonTrap => 1000082,
            MassAnalyzerTerm::RadialEjectionLinearIonTrap => 1000083,
            MassAnalyzerTerm::TimeOfFlight => 1000084,
            MassAnalyzerTerm::ElectrostaticEnergyAnalyzer => 1000254,
            MassAnalyzerTerm::IonTrap => 1000264,
            MassAnalyzerTerm::StoredWaveformInverseFourierTransform => 1000284,
            MassAnalyzerTerm::Cyclotron => 1000288,
            MassAnalyzerTerm::LinearIonTrap => 1000291,
            MassAnalyzerTerm::MassAnalyzerType => 1000443,
            MassAnalyzerTerm::Orbitrap => 1000484,
            MassAnalyzerTerm::AsymmetricTrackLosslessTimeOfFlightAnalyzer => 1003379,
        }
    }

    /// Looks a term up by its accession number.
    pub fn from_accession(acc: u32) -> (r: Option<MassAnalyzerTerm>)
        ensures
            r == massanalyzerterm_from_accession(acc),
    {
        match acc {
            1000078u32 => Some(MassAnalyzerTerm::AxialEjectionLinearIonTrap),
            1000079u32 => Some(MassAnalyzerTerm::FourierTransformIonCyclotronResonanceMassSpectrometer),
            1000080u32 => Some(MassAnalyzerTerm::MagneticSector),
            1000081u32 => Some(MassAnalyzerTerm::Quadrupole),
            1000082u32 => Some(MassAnalyzerTerm::QuadrupoleIonTrap),
            1000083u32 => Some(MassAnalyzerTerm::RadialEjectionLinearIonTrap),
            1000084u32 => Some(MassAnalyzerTerm::TimeOfFlight),
            1000254u32 => Some(MassAnalyzerTerm::ElectrostaticEnergyAnalyzer),
            1000264u32 => Some(MassAnalyzerTerm::IonTrap),
            1000284u32 => Some(MassAnalyzerTerm::StoredWaveformInverseFourierTransform),
            1000288u32 => Some(MassAnalyzerTerm::Cyclotron),
            1000291u32 => Some(MassAnalyzerTerm::LinearIonTrap),
            1000443u32 => Some(MassAnalyzerTerm::MassAnalyzerType),
            1000484u32 => Some(MassAnalyzerTerm::Orbitrap),
            1003379u32 => Some(MassAnalyzerTerm::AsymmetricTrackLosslessTimeOfFlightAnalyzer),
            _ => None,
        }
    }

    /// The display name of this term.
    pub fn name(&self) -> (r: &'static str)
        ensures
            r@ == massanalyzerterm_name(*self),
    {
        match self {
            MassAnalyzerTerm::AxialEjectionLinearIonTrap => "axial ejection linear ion trap",
            MassAnalyzerTerm::FourierTransformIonCyclotronResonanceMassSpectrometer => "fourier transform ion cyclotron resonance mass spectrometer",
            MassAnalyzerTerm::MagneticSector => "magnetic sector",
            MassAnalyzerTerm::Quadrupole => "quadrupole",
            MassAnalyzerTerm::QuadrupoleIonTrap => "quadrupole ion trap",
            MassAnalyzerTerm::RadialEjectionLinearIonTrap => "radial ejection linear ion trap",
            MassAnalyzerTerm::TimeOfFlight => "time-of-flight",
            MassAnalyzerTerm::ElectrostaticEnergyAnalyzer => "electrostatic energy analyzer",
            MassAnalyzerTerm::IonTrap => "ion trap",
            MassAnalyzerTerm::StoredWaveformInverseFourierTransform => "stored waveform inverse fourier transform",
            MassAnalyzerTerm::Cyclotron => "cyclotron",
            MassAnalyzerTerm::LinearIonTrap => "linear ion trap",
            MassAnalyzerTerm::MassAnalyzerType => "mass analyzer type",
            MassAnalyzerTerm::Orbitrap => "orbitrap",
            MassAnalyzerTerm::AsymmetricTrackLosslessTimeOfFlightAnalyzer => "asymmetric track lossless time-of-flight analyzer",
        }
    }

    /// The parent terms of this term, in table order.
    pub fn parents(&self) -> (r: Vec<MassAnalyzerTerm>)
        ensures
            r@ == massanalyzerterm_parents(*self),
    {
        let mut v: Vec<MassAnalyzerTerm> = Vec::new();
        match self {
            MassAnalyzerTerm::AxialEjectionLinearIonTrap => { v.push(MassAnalyzerTerm::LinearIonTrap); },
            MassAnalyzerTerm::FourierTransformIonCyclotronResonanceMassSpectrometer => { v.push(MassAnalyzerTerm::MassAnalyzerType); },
            MassAnalyzerTerm::MagneticSector => { v.push(MassAnalyzerTerm::MassAnalyzerType); },
            MassAnalyzerTerm::Quadrupole => { v.push(MassAnalyzerTerm::MassAnalyzerType); },
            MassAnalyzerTerm::QuadrupoleIonTrap => { v.push(MassAnalyzerTerm::IonTrap); },
            MassAnalyzerTerm::RadialEjectionLinearIonTrap => { v.push(MassAnalyzerTerm::LinearIonTrap); },
            MassAnalyzerTerm::TimeOfFlight => { v.push(MassAnalyzerTerm::MassAnalyzerType); },
            MassAnalyzerTerm::ElectrostaticEnergyAnalyzer => { v.push(MassAnalyzerTerm::MassAnalyzerType); },
            MassAnalyzerTerm::IonTrap => { v.push(MassAnalyzerTerm::MassAnalyzerType); },
            MassAnalyzerTerm::StoredWaveformInverseFourierTransform => { v.push(MassAnalyzerTerm::MassAnalyzerType); },
            MassAnalyzerTerm::Cyclotron => { v.push(MassAnalyzerTerm::MassAnalyzerType); },
            MassAnalyzerTerm::LinearIonTrap => { v.push(MassAnalyzerTerm::IonTrap); },
            MassAnalyzerTerm::MassAnalyzerType => {  },
            MassAnalyzerTerm::Orbitrap => { v.push(MassAnalyzerTerm::MassAnalyzerType); },
            MassAnalyzerTerm::AsymmetricTrackLosslessTimeOfFlightAnalyzer => { v.push(MassAnalyzerTerm::TimeOfFlight); },
        }
        proof {
            assert(v@ =~= massanalyzerterm_parents(*self));
        }
        v
    }

    /// This term as a controlled-vocabulary parameter.
    pub fn to_param(&self) -> (r: Param)
        ensures
            r.accession == Some(massanalyzerterm_accession(*self)),
            r.name@ == massanalyzerterm_name(*self),
            r.controlled_vocabulary == Some(ControlledVocabulary::MS),
            param_is_ms(r),
    {
        Param {
            name: String::from_str(self.name()),
            value: String::new(),
            accession: Some(self.accession()),
            controlled_vocabulary: Some(ControlledVocabulary::MS),
        }
    }
}

/// An ionization type of the controlled vocabulary.
#[derive(Debug, Clone, Copy, PartialEq, Eq, Structural)]
pub enum IonizationTypeTerm {
    IonizationType,
    AtmosphericPressureChemicalIonization,
    ChemicalIonization,
    ElectrosprayIonization,
    FastAtomBombardmentIonization,
    MatrixAssistedLaserDesorptionIonization,
    MultiphotonIonization,
    AtmosphericPressureMatrixAssistedLaserDesorptionIonization,
    AtmosphericPressureIonization,
    DesorptionIonization,
    FlowingAfterglow,
    FieldDesorption,
    FieldIonization,
    GlowDischargeIonization,
    NegativeIonChemicalIonization,
    NeutralizationReionizationMassSpectrometry,
    Photoionization,
    PyrolysisMassSpectrometry,
    ResonanceEnhancedMultiphotonIonization,
    SurfaceEnhancedLaserDesorptionIonization,
    SurfaceEnhancedNeatDesorption,
    AdiabaticIonization,
    AssociativeIonization,
    AtmosphericPressurePhotoionization,
    Autodetachment,
    Autoionization,
    ChargeExchangeIonization,
    ChemiIonization,
    DesorptionIonizationOnSilicon,
    DissociativeIonization,
    ElectronIonization,
    LaserDesorptionIonization,
    LiquidSecondaryIonization,
    Microelectrospray,
    Nanoelectrospray,
    PenningIonization,
    PlasmaDesorptionIonization,
    SecondaryIonization,
    SoftIonization,
    SparkIonization,
    SurfaceAssistedLaserDesorptionIonization,
    SurfaceIonization,
    ThermalIonization,
    VerticalIonization,
    FastIonBombardment,
    DesorptionElectrosprayIonization,
    PaperSprayIonization,
    ProtonTransferReaction,
    ProtonTransferChargeReduction,
}

/// The controlled-vocabulary accession number of a IonizationTypeTerm.
pub open spec fn ionizationtypeterm_accession(t: IonizationTypeTerm) -> u32 {
    match t {
        IonizationTypeTerm::IonizationType => 1000008,
        IonizationTypeTerm::AtmosphericPressureChemicalIonization => 1000070,
        IonizationTypeTerm::ChemicalIonization => 1000071,
        IonizationTypeTerm::ElectrosprayIonization => 1000073,
        IonizationTypeTerm::FastAtomBombardmentIonization => 1000074,
        IonizationTypeTerm::MatrixAssistedLaserDesorptionIonization => 1000075,
        IonizationTypeTerm::MultiphotonIonization => 1000227,
        IonizationTypeTerm::AtmosphericPressureMatrixAssistedLaserDesorptionIonization => 1000239,
        IonizationTypeTerm::AtmosphericPressureIonization => 1000240,
        IonizationTypeTerm::DesorptionIonization => 1000247,
        IonizationTypeTerm::FlowingAfterglow => 1000255,
        IonizationTypeTerm::FieldDesorption => 1000257,
        IonizationTypeTerm::FieldIonization => 1000258,
        IonizationTypeTerm::GlowDischargeIonization => 1000259,
        IonizationTypeTerm::NegativeIonChemicalIonization => 1000271,
        IonizationTypeTerm::NeutralizationReionizationMassSpectrometry => 1000272,
        IonizationTypeTerm::Photoionization => 1000273,
        IonizationTypeTerm::PyrolysisMassSpectrometry => 1000274,
        IonizationTypeTerm::ResonanceEnhancedMultiphotonIonization => 1000276,
        IonizationTypeTerm::SurfaceEnhancedLaserDesorptionIonization => 1000278,
        IonizationTypeTerm::SurfaceEnhancedNeatDesorption => 1000279,
        IonizationTypeTerm::AdiabaticIonization => 1000380,
        IonizationTypeTerm::AssociativeIonization => 1000381,
        IonizationTypeTerm::AtmosphericPressurePhotoionization => 1000382,
        IonizationTypeTerm::Autodetachment => 1000383,
        IonizationTypeTerm::Autoionization => 1000384,
        IonizationTypeTerm::ChargeExchangeIonization => 1000385,
        IonizationTypeTerm::ChemiIonization => 1000386,
        IonizationTypeTerm::DesorptionIonizationOnSilicon => 1000387,
        IonizationTypeTerm::DissociativeIonization => 1000388,
        IonizationTypeTerm::ElectronIonization => 1000389,
        IonizationTypeTerm::LaserDesorptionIonization => 1000393,
        IonizationTypeTerm::LiquidSecondaryIonization => 1000395,
        IonizationTypeTerm::Microelectrospray => 1000397,
        IonizationTypeTerm::Nanoelectrospray => 1000398,
        IonizationTypeTerm::PenningIonization => 1000399,
        IonizationTypeTerm::PlasmaDesorptionIonization => 1000400,
        IonizationTypeTerm::SecondaryIonization => 1000402,
        IonizationTypeTerm::SoftIonization => 1000403,
        IonizationTypeTerm::SparkIonization => 1000404,
        IonizationTypeTerm::SurfaceAssistedLaserDesorptionIonization => 1000405,
        IonizationTypeTerm::SurfaceIonization => 1000406,
        IonizationTypeTerm::ThermalIonization => 1000407,
        IonizationTypeTerm::VerticalIonization => 1000408,
        IonizationTypeTerm::FastIonBombardment => 1000446,
        IonizationTypeTerm::DesorptionElectrosprayIonization => 1002011,
        IonizationTypeTerm::PaperSprayIonization => 1003235,
        IonizationTypeTerm::ProtonTransferReaction => 1003248,
        IonizationTypeTerm::ProtonTransferChargeReduction => 1003249,
    }
}

/// The IonizationTypeTerm a controlled-vocabulary accession number names, if any.
pub open spec fn ionizationtypeterm_from_accession(acc: u32) -> Option<IonizationTypeTerm> {
    match acc {
        1000008u32 => Some(IonizationTypeTerm::IonizationType),
        1000070u32 => Some(IonizationTypeTerm::AtmosphericPressureChemicalIonization),
        1000071u32 => Some(IonizationTypeTerm::ChemicalIonization),
        1000073u32 => Some(IonizationTypeTerm::ElectrosprayIonization),
        1000074u32 => Some(IonizationTypeTerm::FastAtomBombardmentIonization),
        1000075u32 => Some(IonizationTypeTerm::MatrixAssistedLaserDesorptionIonization),
        1000227u32 => Some(IonizationTypeTerm::MultiphotonIonization),
        1000239u32 => Some(IonizationTypeTerm::AtmosphericPressureMatrixAssistedLaserDesorptionIonization),
        1000240u32 => Some(IonizationTypeTerm::AtmosphericPressureIonization),
        1000247u32 => Some(IonizationTypeTerm::DesorptionIonization),
        1000255u32 => Some(IonizationTypeTerm::FlowingAfterglow),
        1000257u32 => Some(IonizationTypeTerm::FieldDesorption),
        1000258u32 => Some(IonizationTypeTerm::FieldIonization),
        1000259u32 => Some(IonizationTypeTerm::GlowDischargeIonization),
        1000271u32 => Some(IonizationTypeTerm::NegativeIonChemicalIonization),
        1000272u32 => Some(IonizationTypeTerm::NeutralizationReionizationMassSpectrometry),
        1000273u32 => Some(IonizationTypeTerm::Photoionization),
        1000274u32 => Some(IonizationTypeTerm::PyrolysisMassSpectrometry),
        1000276u32 => Some(IonizationTypeTerm::ResonanceEnhancedMultiphotonIonization),
        1000278u32 => Some(IonizationTypeTerm::SurfaceEnhancedLaserDesorptionIonization),
        1000279u32 => Some(IonizationTypeTerm::SurfaceEnhancedNeatDesorption),
        1000380u32 => Some(IonizationTypeTerm::AdiabaticIonization),
        1000381u32 => Some(IonizationTypeTerm::AssociativeIonization),
        1000382u32 => Some(IonizationTypeTerm::AtmosphericPressurePhotoionization),
        1000383u32 => Some(IonizationTypeTerm::Autodetachment),
        1000384u32 => Some(IonizationTypeTerm::Autoionization),
        1000385u32 => Some(IonizationTypeTerm::ChargeExchangeIonization),
        1000386u32 => Some(IonizationTypeTerm::ChemiIonization),
        1000387u32 => Some(IonizationTypeTerm::DesorptionIonizationOnSilicon),
        1000388u32 => Some(IonizationTypeTerm::DissociativeIonization),
        1000389u32 => Some(IonizationTypeTerm::ElectronIonization),
        1000393u32 => Some(IonizationTypeTerm::LaserDesorptionIonization),
        1000395u32 => Some(IonizationTypeTerm::LiquidSecondaryIonization),
        1000397u32 => Some(IonizationTypeTerm::Microelectrospray),
        1000398u32 => Some(IonizationTypeTerm::Nanoelectrospray),
        1000399u32 => Some(IonizationTypeTerm::PenningIonization),
        1000400u32 => Some(IonizationTypeTerm::PlasmaDesorptionIonization),
        1000402u32 => Some(IonizationTypeTerm::SecondaryIonization),
        1000403u32 => Some(IonizationTypeTerm::SoftIonization),
        1000404u32 => Some(IonizationTypeTerm::SparkIonization),
        1000405u32 => Some(IonizationTypeTerm::SurfaceAssistedLaserDesorptionIonization),
        1000406u32 => Some(IonizationTypeTerm::SurfaceIonization),
        1000407u32 => Some(IonizationTypeTerm::ThermalIonization),
        1000408u32 => Some(IonizationTypeTerm::VerticalIonization),
        1000446u32 => Some(IonizationTypeTerm::FastIonBombardment),
        1002011u32 => Some(IonizationTypeTerm::DesorptionElectrosprayIonization),
        1003235u32 => Some(IonizationTypeTerm::PaperSprayIonization),
        1003248u32 => Some(IonizationTypeTerm::ProtonTransferReaction),
        1003249u32 => Some(IonizationTypeTerm::ProtonTransferChargeReduction),
        _ => None,
    }
}

/// The display name of a IonizationTypeTerm.
pub open spec fn ionizationtypeterm_name(t: IonizationTypeTerm) -> Seq<char> {
    match t {
        IonizationTypeTerm::IonizationType => "ionization type"@,
        IonizationTypeTerm::AtmosphericPressureChemicalIonization => "atmospheric pressure chemical ionization"@,
        IonizationTypeTerm::ChemicalIonization => "chemical ionization"@,
        IonizationTypeTerm::ElectrosprayIonization => "electrospray ionization"@,
        IonizationTypeTerm::FastAtomBombardmentIonization => "fast atom bombardment ionization"@,
        IonizationTypeTerm::MatrixAssistedLaserDesorptionIonization => "matrix-assisted laser desorption ionization"@,
        IonizationTypeTerm::MultiphotonIonization => "multiphoton ionization"@,
        IonizationTypeTerm::AtmosphericPressureMatrixAssistedLaserDesorptionIonization => "atmospheric pressure matrix-assisted laser desorption ionization"@,
        IonizationTypeTerm::AtmosphericPressureIonization => "atmospheric pressure ionization"@,
        IonizationTypeTerm::DesorptionIonization => "desorption ionization"@,
        IonizationTypeTerm::FlowingAfterglow => "flowing afterglow"@,
        IonizationTypeTerm::FieldDesorption => "field desorption"@,
        IonizationTypeTerm::FieldIonization => "field ionization"@,
        IonizationTypeTerm::GlowDischargeIonization => "glow discharge ionization"@,
        IonizationTypeTerm::NegativeIonChemicalIonization => "Negative Ion chemical ionization"@,
        IonizationTypeTerm::NeutralizationReionizationMassSpectrometry => "neutralization reionization mass spectrometry"@,
        IonizationTypeTerm::Photoionization => "photoionization"@,
        IonizationTypeTerm::PyrolysisMassSpectrometry => "pyrolysis mass spectrometry"@,
        IonizationTypeTerm::ResonanceEnhancedMultiphotonIonization => "resonance enhanced multiphoton ionization"@,
        IonizationTypeTerm::SurfaceEnhancedLaserDesorptionIonization => "surface enhanced laser desorption ionization"@,
        IonizationTypeTerm::SurfaceEnhancedNeatDesorption => "surface enhanced neat desorption"@,
        IonizationTypeTerm::AdiabaticIonization => "adiabatic ionization"@,
        IonizationTypeTerm::AssociativeIonization => "associative ionization"@,
        IonizationTypeTerm::AtmosphericPressurePhotoionization => "atmospheric pressure photoionization"@,
        IonizationTypeTerm::Autodetachment => "autodetachment"@,
        IonizationTypeTerm::Autoionization => "autoionization"@,
        IonizationTypeTerm::ChargeExchangeIonization => "charge exchange ionization"@,
        IonizationTypeTerm::ChemiIonization => "chemi-ionization"@,
        IonizationTypeTerm::DesorptionIonizationOnSilicon => "desorption/ionization on silicon"@,
        IonizationTypeTerm::DissociativeIonization => "dissociative ionization"@,
        IonizationTypeTerm::ElectronIonization => "electron ionization"@,
        IonizationTypeTerm::LaserDesorptionIonization => "laser desorption ionization"@,
        IonizationTypeTerm::LiquidSecondaryIonization => "liquid secondary ionization"@,
        IonizationTypeTerm::Microelectrospray => "microelectrospray"@,
        IonizationTypeTerm::Nanoelectrospray => "nanoelectrospray"@,
        IonizationTypeTerm::PenningIonization => "penning ionization"@,
        IonizationTypeTerm::PlasmaDesorptionIonization => "plasma desorption ionization"@,
        IonizationTypeTerm::SecondaryIonization => "secondary ionization"@,
        IonizationTypeTerm::SoftIonization => "soft ionization"@,
        IonizationTypeTerm::SparkIonization => "spark ionization"@,
        IonizationTypeTerm::SurfaceAssistedLaserDesorptionIonization => "surface-assisted laser desorption ionization"@,
        IonizationTypeTerm::SurfaceIonization => "surface ionization"@,
        IonizationTypeTerm::ThermalIonization => "thermal ionization"@,
        IonizationTypeTerm::VerticalIonization => "vertical ionization"@,
        IonizationTypeTerm::FastIonBombardment => "fast ion bombardment"@,
        IonizationTypeTerm::DesorptionElectrosprayIonization => "desorption electrospray ionization"@,
        IonizationTypeTerm::PaperSprayIonization => "paper spray ionization"@,
        IonizationTypeTerm::ProtonTransferReaction => "proton transfer reaction"@,
        IonizationTypeTerm::ProtonTransferChargeReduction => "proton transfer charge reduction"@,
    }
}

/// The parent terms of a IonizationTypeTerm, in table order.
pub open spec fn ionizationtypeterm_parents(t: IonizationTypeTerm) -> Seq<IonizationTypeTerm> {
    match t {
        IonizationTypeTerm::IonizationType => Seq::empty(),
        IonizationTypeTerm::AtmosphericPressureChemicalIonization => seq![IonizationTypeTerm::AtmosphericPressureIonization],
        IonizationTypeTerm::ChemicalIonization => seq![IonizationTypeTerm::IonizationType],
        IonizationTypeTerm::ElectrosprayIonization => seq![IonizationTypeTerm::IonizationType],
        IonizationTypeTerm::FastAtomBombardmentIonization => seq![IonizationTypeTerm::IonizationType],
        IonizationTypeTerm::MatrixAssistedLaserDesorptionIonization => seq![IonizationTypeTerm::DesorptionIonization],
        IonizationTypeTerm::MultiphotonIonization => seq![IonizationTypeTerm::IonizationType],
        IonizationTypeTerm::AtmosphericPressureMatrixAssistedLaserDesorptionIonization => seq![IonizationTypeTerm::AtmosphericPressureIonization],
        IonizationTypeTerm::AtmosphericPressureIonization => seq![IonizationTypeTerm::IonizationType],
        IonizationTypeTerm::DesorptionIonization => seq![IonizationTypeTerm::IonizationType],
        IonizationTypeTerm::FlowingAfterglow => seq![IonizationTypeTerm::IonizationType],
        IonizationTypeTerm::FieldDesorption => seq![IonizationTypeTerm::DesorptionIonization],
        IonizationTypeTerm::FieldIonization => seq![IonizationTypeTerm::IonizationType],
        IonizationTypeTerm::GlowDischargeIonization => seq![IonizationTypeTerm::IonizationType],
        IonizationTypeTerm::NegativeIonChemicalIonization => seq![IonizationTypeTerm::IonizationType],
        IonizationTypeTerm::NeutralizationReionizationMassSpectrometry => seq![IonizationTypeTerm::IonizationType],
        IonizationTypeTerm::Photoionization => seq![IonizationTypeTerm::IonizationType],
        IonizationTypeTerm::PyrolysisMassSpectrometry => seq![IonizationTypeTerm::IonizationType],
        IonizationTypeTerm::ResonanceEnhancedMultiphotonIonization => seq![IonizationTypeTerm::IonizationType],
        IonizationTypeTerm::SurfaceEnhancedLaserDesorptionIonization => seq![IonizationTypeTerm::SurfaceIonization],
        IonizationTypeTerm::SurfaceEnhancedNeatDesorption => seq![IonizationTypeTerm::SurfaceIonization],
        IonizationTypeTerm::AdiabaticIonization => seq![IonizationTypeTerm::IonizationType],
        IonizationTypeTerm::AssociativeIonization => seq![IonizationTypeTerm::IonizationType],
        IonizationTypeTerm::AtmosphericPressurePhotoionization => seq![IonizationTypeTerm::AtmosphericPressureIonization],
        IonizationTypeTerm::Autodetachment => seq![IonizationTypeTerm::IonizationType],
        IonizationTypeTerm::Autoionization => seq![IonizationTypeTerm::IonizationType],
        IonizationTypeTerm::ChargeExchangeIonization => seq![IonizationTypeTerm::IonizationType],
        IonizationTypeTerm::ChemiIonization => seq![IonizationTypeTerm::IonizationType],
        IonizationTypeTerm::DesorptionIonizationOnSilicon => seq![IonizationTypeTerm::DesorptionIonization],
        IonizationTypeTerm::DissociativeIonization => seq![IonizationTypeTerm::IonizationType],
        IonizationTypeTerm::ElectronIonization => seq![IonizationTypeTerm::IonizationType],
        IonizationTypeTerm::LaserDesorptionIonization => seq![IonizationTypeTerm::DesorptionIonization],
        IonizationTypeTerm::LiquidSecondaryIonization => seq![IonizationTypeTerm::IonizationType],
        IonizationTypeTerm::Microelectrospray => seq![IonizationTypeTerm::ElectrosprayIonization],
        IonizationTypeTerm::Nanoelectrospray => seq![IonizationTypeTerm::ElectrosprayIonization],
        IonizationTypeTerm::PenningIonization => seq![IonizationTypeTerm::IonizationType],
        IonizationTypeTerm::PlasmaDesorptionIonization => seq![IonizationTypeTerm::IonizationType],
        IonizationTypeTerm::SecondaryIonization => seq![IonizationTypeTerm::IonizationType],
        IonizationTypeTerm::SoftIonization => seq![IonizationTypeTerm::IonizationType],
        IonizationTypeTerm::SparkIonization => seq![IonizationTypeTerm::IonizationType],
        IonizationTypeTerm::SurfaceAssistedLaserDesorptionIonization => seq![IonizationTypeTerm::DesorptionIonization],
        IonizationTypeTerm::SurfaceIonization => seq![IonizationTypeTerm::IonizationType],
        IonizationTypeTerm::ThermalIonization => seq![IonizationTypeTerm::IonizationType],
        IonizationTypeTerm::VerticalIonization => seq![IonizationTypeTerm::IonizationType],
        IonizationTypeTerm::FastIonBombardment => seq![IonizationTypeTerm::IonizationType],
        IonizationTypeTerm::DesorptionElectrosprayIonization => seq![IonizationTypeTerm::AtmosphericPressureIonization],
        IonizationTypeTerm::PaperSprayIonization => seq![IonizationTypeTerm::IonizationType],
        IonizationTypeTerm::ProtonTransferReaction => seq![IonizationTypeTerm::IonizationType],
        IonizationTypeTerm::ProtonTransferChargeReduction => seq![IonizationTypeTerm::IonizationType],
    }
}

impl IonizationTypeTerm {
    /// The accession number of this term.
    pub fn accession(&self) -> (r: u32)
        ensures
            r == ionizationtypeterm_accession(*self),
    {
        match self {
            IonizationTypeTerm::IonizationType => 1000008,
            IonizationTypeTerm::AtmosphericPressureChemicalIonization => 1000070,
            IonizationTypeTerm::ChemicalIonization => 1000071,
            IonizationTypeTerm::ElectrosprayIonization => 1000073,
            IonizationTypeTerm::FastAtomBombardmentIonization => 1000074,
            IonizationTypeTerm::MatrixAssistedLaserDesorptionIonization => 1000075,
            IonizationTypeTerm::MultiphotonIonization => 1000227,
            IonizationTypeTerm::AtmosphericPressureMatrixAssistedLaserDesorptionIonization => 1000239,
            IonizationTypeTerm::AtmosphericPressureIonization => 1000240,
            IonizationTypeTerm::DesorptionIonization => 1000247,
            IonizationTypeTerm::FlowingAfterglow => 1000255,
            IonizationTypeTerm::FieldDesorption => 1000257,
            IonizationTypeTerm::FieldIonization => 1000258,
            IonizationTypeTerm::GlowDischargeIonization => 1000259,
            IonizationTypeTerm::NegativeIonChemicalIonization => 1000271,
            IonizationTypeTerm::NeutralizationReionizationMassSpectrometry => 1000272,
            IonizationTypeTerm::Photoionization => 1000273,
            IonizationTypeTerm::PyrolysisMassSpectrometry => 1000274,
            IonizationTypeTerm::ResonanceEnhancedMultiphotonIonization => 1000276,
            IonizationTypeTerm::SurfaceEnhancedLaserDesorptionIonization => 1000278,
            IonizationTypeTerm::SurfaceEnhancedNeatDesorption => 1000279,
            IonizationTypeTerm::AdiabaticIonization => 1000380,
            IonizationTypeTerm::AssociativeIonization => 1000381,
            IonizationTypeTerm::AtmosphericPressurePhotoionization => 1000382,
            IonizationTypeTerm::Autodetachment => 1000383,
            IonizationTypeTerm::Autoionization => 1000384,
            IonizationTypeTerm::ChargeExchangeIonization => 1000385,
            IonizationTypeTerm::ChemiIonization => 1000386,
            IonizationTypeTerm::DesorptionIonizationOnSilicon => 1000387,
            IonizationTypeTerm::DissociativeIonization => 1000388,
            IonizationTypeTerm::ElectronIonization => 1000389,
            IonizationTypeTerm::LaserDesorptionIonization => 1000393,
            IonizationTypeTerm::LiquidSecondaryIonization => 1000395,
            IonizationTypeTerm::Microelectrospray => 1000397,
            IonizationTypeTerm::Nanoelectrospray => 1000398,
            IonizationTypeTerm::PenningIonization => 1000399,
            IonizationTypeTerm::PlasmaDesorptionIonization => 1000400,
            IonizationTypeTerm::SecondaryIonization => 1000402,
            IonizationTypeTerm::SoftIonization => 1000403,
            IonizationTypeTerm::SparkIonization => 1000404,
            IonizationTypeTerm::SurfaceAssistedLaserDesorptionIonization => 1000405,
            IonizationTypeTerm::SurfaceIonization => 1000406,
            IonizationTypeTerm::ThermalIonization => 1000407,
            IonizationTypeTerm::VerticalIonization => 1000408,
            IonizationTypeTerm::FastIonBombardment => 1000446,
            IonizationTypeTerm::DesorptionElectrosprayIonization => 1002011,
            IonizationTypeTerm::PaperSprayIonization => 1003235,
            IonizationTypeTerm::ProtonTransferReaction => 1003248,
            IonizationTypeTerm::ProtonTransferChargeReduction => 1003249,
        }
    }

    /// Looks a term up by its accession number.
    pub fn from_accession(acc: u32) -> (r: Option<IonizationTypeTerm>)
        ensures
            r == ionizationtypeterm_from_accession(acc),
    {
        match acc {
            1000008u32 => Some(IonizationTypeTerm::IonizationType),
            1000070u32 => Some(IonizationTypeTerm::AtmosphericPressureChemicalIonization),
            1000071u32 => Some(IonizationTypeTerm::ChemicalIonization),
            1000073u32 => Some(IonizationTypeTerm::ElectrosprayIonization),
            1000074u32 => Some(IonizationTypeTerm::FastAtomBombardmentIonization),
            1000075u32 => Some(IonizationTypeTerm::MatrixAssistedLaserDesorptionIonization),
            1000227u32 => Some(IonizationTypeTerm::MultiphotonIonization),
            1000239u32 => Some(IonizationTypeTerm::AtmosphericPressureMatrixAssistedLaserDesorptionIonization),
            1000240u32 => Some(IonizationTypeTerm::AtmosphericPressureIonization),
            1000247u32 => Some(IonizationTypeTerm::DesorptionIonization),
            1000255u32 => Some(IonizationTypeTerm::FlowingAfterglow),
            1000257u32 => Some(IonizationTypeTerm::FieldDesorption),
            1000258u32 => Some(IonizationTypeTerm::FieldIonization),
            1000259u32 => Some(IonizationTypeTerm::GlowDischargeIonization),
            1000271u32 => Some(IonizationTypeTerm::NegativeIonChemicalIonization),
            1000272u32 => Some(IonizationTypeTerm::NeutralizationReionizationMassSpectrometry),
            1000273u32 => Some(IonizationTypeTerm::Photoionization),
            1000274u32 => Some(IonizationTypeTerm::PyrolysisMassSpectrometry),
            1000276u32 => Some(IonizationTypeTerm::ResonanceEnhancedMultiphotonIonization),
            1000278u32 => Some(IonizationTypeTerm::SurfaceEnhancedLaserDesorptionIonization),
            1000279u32 => Some(IonizationTypeTerm::SurfaceEnhancedNeatDesorption),
            1000380u32 => Some(IonizationTypeTerm::AdiabaticIonization),
            1000381u32 => Some(IonizationTypeTerm::AssociativeIonization),
            1000382u32 => Some(IonizationTypeTerm::AtmosphericPressurePhotoionization),
            1000383u32 => Some(IonizationTypeTerm::Autodetachment),
            1000384u32 => Some(IonizationTypeTerm::Autoionization),
            1000385u32 => Some(IonizationTypeTerm::ChargeExchangeIonization),
            1000386u32 => Some(IonizationTypeTerm::ChemiIonization),
            1000387u32 => Some(IonizationTypeTerm::DesorptionIonizationOnSilicon),
            1000388u32 => Some(IonizationTypeTerm::DissociativeIonization),
            1000389u32 => Some(IonizationTypeTerm::ElectronIonization),
            1000393u32 => Some(IonizationTypeTerm::LaserDesorptionIonization),
            1000395u32 => Some(IonizationTypeTerm::LiquidSecondaryIonization),
            1000397u32 => Some(IonizationTypeTerm::Microelectrospray),
            1000398u32 => Some(IonizationTypeTerm::Nanoelectrospray),
            1000399u32 => Some(IonizationTypeTerm::PenningIonization),
            1000400u32 => Some(IonizationTypeTerm::PlasmaDesorptionIonization),
            1000402u32 => Some(IonizationTypeTerm::SecondaryIonization),
            1000403u32 => Some(IonizationTypeTerm::SoftIonization),
            1000404u32 => Some(IonizationTypeTerm::SparkIonization),
            1000405u32 => Some(IonizationTypeTerm::SurfaceAssistedLaserDesorptionIonization),
            1000406u32 => Some(IonizationTypeTerm::SurfaceIonization),
            1000407u32 => Some(IonizationTypeTerm::ThermalIonization),
            1000408u32 => Some(IonizationTypeTerm::VerticalIonization),
            1000446u32 => Some(IonizationTypeTerm::FastIonBombardment),
            1002011u32 => Some(IonizationTypeTerm::DesorptionElectrosprayIonization),
            1003235u32 => Some(IonizationTypeTerm::PaperSprayIonization),
            1003248u32 => Some(IonizationTypeTerm::ProtonTransferReaction),
            1003249u32 => Some(IonizationTypeTerm::ProtonTransferChargeReduction),
            _ => None,
        }
    }

    /// The display name of this term.
    pub fn name(&self) -> (r: &'static str)
        ensures
            r@ == ionizationtypeterm_name(*self),
    {
        match self {
            IonizationTypeTerm::IonizationType => "ionization type",
            IonizationTypeTerm::AtmosphericPressureChemicalIonization => "atmospheric pressure chemical ionization",
            IonizationTypeTerm::ChemicalIonization => "chemical ionization",
            IonizationTypeTerm::ElectrosprayIonization => "electrospray ionization",
            IonizationTypeTerm::FastAtomBombardmentIonization => "fast atom bombardment ionization",
            IonizationTypeTerm::MatrixAssistedLaserDesorptionIonization => "matrix-assisted laser desorption ionization",
            IonizationTypeTerm::MultiphotonIonization => "multiphoton ionization",
            IonizationTypeTerm::AtmosphericPressureMatrixAssistedLaserDesorptionIonization => "atmospheric pressure matrix-assisted laser desorption ionization",
            IonizationTypeTerm::AtmosphericPressureIonization => "atmospheric pressure ionization",
            IonizationTypeTerm::DesorptionIonization => "desorption ionization",
            IonizationTypeTerm::FlowingAfterglow => "flowing afterglow",
            IonizationTypeTerm::FieldDesorption => "field desorption",
            IonizationTypeTerm::FieldIonization => "field ionization",
            IonizationTypeTerm::GlowDischargeIonization => "glow discharge ionization",
            IonizationTypeTerm::NegativeIonChemicalIonization => "Negative Ion chemical ionization",
            IonizationTypeTerm::NeutralizationReionizationMassSpectrometry => "neutralization reionization mass spectrometry",
            IonizationTypeTerm::Photoionization => "photoionization",
            IonizationTypeTerm::PyrolysisMassSpectrometry => "pyrolysis mass spectrometry",
            IonizationTypeTerm::ResonanceEnhancedMultiphotonIonization => "resonance enhanced multiphoton ionization",
            IonizationTypeTerm::SurfaceEnhancedLaserDesorptionIonization => "surface enhanced laser desorption ionization",
            IonizationTypeTerm::SurfaceEnhancedNeatDesorption => "surface enhanced neat desorption",
            IonizationTypeTerm::AdiabaticIonization => "adiabatic ionization",
            IonizationTypeTerm::AssociativeIonization => "associative ionization",
            IonizationTypeTerm::AtmosphericPressurePhotoionization => "atmospheric pressure photoionization",
            IonizationTypeTerm::Autodetachment => "autodetachment",
            IonizationTypeTerm::Autoionization => "autoionization",
            IonizationTypeTerm::ChargeExchangeIonization => "charge exchange ionization",
            IonizationTypeTerm::ChemiIonization => "chemi-ionization",
            IonizationTypeTerm::DesorptionIonizationOnSilicon => "desorption/ionization on silicon",
            IonizationTypeTerm::DissociativeIonization => "dissociative ionization",
            IonizationTypeTerm::ElectronIonization => "electron ionization",
            IonizationTypeTerm::LaserDesorptionIonization => "laser desorption ionization",
            IonizationTypeTerm::LiquidSecondaryIonization => "liquid secondary ionization",
            IonizationTypeTerm::Microelectrospray => "microelectrospray",
            IonizationTypeTerm::Nanoelectrospray => "nanoelectrospray",
            IonizationTypeTerm::PenningIonization => "penning ionization",
            IonizationTypeTerm::PlasmaDesorptionIonization => "plasma desorption ionization",
            IonizationTypeTerm::SecondaryIonization => "secondary ionization",
            IonizationTypeTerm::SoftIonization => "soft ionization",
            IonizationTypeTerm::SparkIonization => "spark ionization",
            IonizationTypeTerm::SurfaceAssistedLaserDesorptionIonization => "surface-assisted laser desorption ionization",
            IonizationTypeTerm::SurfaceIonization => "surface ionization",
            IonizationTypeTerm::ThermalIonization => "thermal ionization",
            IonizationTypeTerm::VerticalIonization => "vertical ionization",
            IonizationTypeTerm::FastIonBombardment => "fast ion bombardment",
            IonizationTypeTerm::DesorptionElectrosprayIonization => "desorption electrospray ionization",
            IonizationTypeTerm::PaperSprayIonization => "paper spray ionization",
            IonizationTypeTerm::ProtonTransferReaction => "proton transfer reaction",
            IonizationTypeTerm::ProtonTransferChargeReduction => "proton transfer charge reduction",
        }
    }

    /// The parent terms of this term, in table order.
    pub fn parents(&self) -> (r: Vec<IonizationTypeTerm>)
        ensures
            r@ == ionizationtypeterm_parents(*self),
    {
        let mut v: Vec<IonizationTypeTerm> = Vec::new();
        match self {
            IonizationTypeTerm::IonizationType => {  },
            IonizationTypeTerm::AtmosphericPressureChemicalIonization => { v.push(IonizationTypeTerm::AtmosphericPressureIonization); },
            IonizationTypeTerm::ChemicalIonization => { v.push(IonizationTypeTerm::IonizationType); },
            IonizationTypeTerm::ElectrosprayIonization => { v.push(IonizationTypeTerm::IonizationType); },
            IonizationTypeTerm::FastAtomBombardmentIonization => { v.push(IonizationTypeTerm::IonizationType); },
            IonizationTypeTerm::MatrixAssistedLaserDesorptionIonization => { v.push(IonizationTypeTerm::DesorptionIonization); },
            IonizationTypeTerm::MultiphotonIonization => { v.push(IonizationTypeTerm::IonizationType); },
            IonizationTypeTerm::AtmosphericPressureMatrixAssistedLaserDesorptionIonization => { v.push(IonizationTypeTerm::AtmosphericPressureIonization); },
            IonizationTypeTerm::AtmosphericPressureIonization => { v.push(IonizationTypeTerm::IonizationType); },
            IonizationTypeTerm::DesorptionIonization => { v.push(IonizationTypeTerm::IonizationType); },
            IonizationTypeTerm::FlowingAfterglow => { v.push(IonizationTypeTerm::IonizationType); },
            IonizationTypeTerm::FieldDesorption => { v.push(IonizationTypeTerm::DesorptionIonization); },
            IonizationTypeTerm::FieldIonization => { v.push(IonizationTypeTerm::IonizationType); },
            IonizationTypeTerm::GlowDischargeIonization => { v.push(IonizationTypeTerm::IonizationType); },
            IonizationTypeTerm::NegativeIonChemicalIonization => { v.push(IonizationTypeTerm::IonizationType); },
            IonizationTypeTerm::NeutralizationReionizationMassSpectrometry => { v.push(IonizationTypeTerm::IonizationType); },
            IonizationTypeTerm::Photoionization => { v.push(IonizationTypeTerm::IonizationType); },
            IonizationTypeTerm::PyrolysisMassSpectrometry => { v.push(IonizationTypeTerm::IonizationType); },
            IonizationTypeTerm::ResonanceEnhancedMultiphotonIonization => { v.push(IonizationTypeTerm::IonizationType); },
            IonizationTypeTerm::SurfaceEnhancedLaserDesorptionIonization => { v.push(IonizationTypeTerm::SurfaceIonization); },
            IonizationTypeTerm::SurfaceEnhancedNeatDesorption => { v.push(IonizationTypeTerm::SurfaceIonization); },
            IonizationTypeTerm::AdiabaticIonization => { v.push(IonizationTypeTerm::IonizationType); },
            IonizationTypeTerm::AssociativeIonization => { v.push(IonizationTypeTerm::IonizationType); },
            IonizationTypeTerm::AtmosphericPressurePhotoionization => { v.push(IonizationTypeTerm::AtmosphericPressureIonization); },
            IonizationTypeTerm::Autodetachment => { v.push(IonizationTypeTerm::IonizationType); },
            IonizationTypeTerm::Autoionization => { v.push(IonizationTypeTerm::IonizationType); },
            IonizationTypeTerm::ChargeExchangeIonization => { v.push(IonizationTypeTerm::IonizationType); },
            IonizationTypeTerm::ChemiIonization => { v.push(IonizationTypeTerm::IonizationType); },
            IonizationTypeTerm::DesorptionIonizationOnSilicon => { v.push(IonizationTypeTerm::DesorptionIonization); },
            IonizationTypeTerm::DissociativeIonization => { v.push(IonizationTypeTerm::IonizationType); },
            IonizationTypeTerm::ElectronIonization => { v.push(IonizationTypeTerm::IonizationType); },
            IonizationTypeTerm::LaserDesorptionIonization => { v.push(IonizationTypeTerm::DesorptionIonization); },
            IonizationTypeTerm::LiquidSecondaryIonization => { v.push(IonizationTypeTerm::IonizationType); },
            IonizationTypeTerm::Microelectrospray => { v.push(IonizationTypeTerm::ElectrosprayIonization); },
            IonizationTypeTerm::Nanoelectrospray => { v.push(IonizationTypeTerm::ElectrosprayIonization); },
            IonizationTypeTerm::PenningIonization => { v.push(IonizationTypeTerm::IonizationType); },
            IonizationTypeTerm::PlasmaDesorptionIonization => { v.push(IonizationTypeTerm::IonizationType); },
            IonizationTypeTerm::SecondaryIonization => { v.push(IonizationTypeTerm::IonizationType); },
            IonizationTypeTerm::SoftIonization => { v.push(IonizationTypeTerm::IonizationType); },
            IonizationTypeTerm::SparkIonization => { v.push(IonizationTypeTerm::IonizationType); },
            IonizationTypeTerm::SurfaceAssistedLaserDesorptionIonization => { v.push(IonizationTypeTerm::DesorptionIonization); },
            IonizationTypeTerm::SurfaceIonization => { v.push(IonizationTypeTerm::IonizationType); },
            IonizationTypeTerm::ThermalIonization => { v.push(IonizationTypeTerm::IonizationType); },
            IonizationTypeTerm::VerticalIonization => { v.push(IonizationTypeTerm::IonizationType); },
            IonizationTypeTerm::FastIonBombardment => { v.push(IonizationTypeTerm::IonizationType); },
            IonizationTypeTerm::DesorptionElectrosprayIonization => { v.push(IonizationTypeTerm::AtmosphericPressureIonization); },
            IonizationTypeTerm::PaperSprayIonization => { v.push(IonizationTypeTerm::IonizationType); },
            IonizationTypeTerm::ProtonTransferReaction => { v.push(IonizationTypeTerm::IonizationType); },
            IonizationTypeTerm::ProtonTransferChargeReduction => { v.push(IonizationTypeTerm::IonizationType); },
        }
        proof {
            assert(v@ =~= ionizationtypeterm_parents(*self));
        }
        v
    }

    /// This term as a controlled-vocabulary parameter.
    pub fn to_param(&self) -> (r: Param)
        ensures
            r.accession == Some(ionizationtypeterm_accession(*self)),
            r.name@ == ionizationtypeterm_name(*self),
            r.controlled_vocabulary == Some(ControlledVocabulary::MS),
            param_is_ms(r),
    {
        Param {
            name: String::from_str(self.name()),
            value: String::new(),
            accession: Some(self.accession()),
            controlled_vocabulary: Some(ControlledVocabulary::MS),
        }
    }
}

/// A detector type of the controlled vocabulary.
#[derive(Debug, Clone, Copy, PartialEq, Eq, Structural)]
pub enum DetectorTypeTerm {
    DetectorType,
    Channeltron,
    ConversionDynodeElectronMultiplier,
    ConversionDynodePhotomultiplier,
    DalyDetector,
    ElectronMultiplierTube,
    FaradayCup,
    FocalPlaneArray,
    MicrochannelPlateDetector,
    MultiCollector,
    Photomultiplier,
    ElectronMultiplier,
    ArrayDetector,
    ConversionDynode,
    Dynode,
    FocalPlaneCollector,
    IonToPhotonDetector,
    PointCollector,
    PostaccelerationDetector,
    PhotodiodeArrayDetector,
    InductiveDetector,
    AcquityUPLCPDA,
    AcquityUPLCFLR,
    FluorescenceDetector,
}

/// The controlled-vocabulary accession number of a DetectorTypeTerm.
pub open spec fn detectortypeterm_accession(t: DetectorTypeTerm) -> u32 {
    match t {
        DetectorTypeTerm::DetectorType => 1000026,
        DetectorTypeTerm::Channeltron => 1000107,
        DetectorTypeTerm::ConversionDynodeElectronMultiplier => 1000108,
        DetectorTypeTerm::ConversionDynodePhotomultiplier => 1000109,
        DetectorTypeTerm::DalyDetector => 1000110,
        DetectorTypeTerm::ElectronMultiplierTube => 1000111,
        DetectorTypeTerm::FaradayCup => 1000112,
        DetectorTypeTerm::FocalPlaneArray => 1000113,
        DetectorTypeTerm::MicrochannelPlateDetector => 1000114,
        DetectorTypeTerm::MultiCollector => 1000115,
        DetectorTypeTerm::Photomultiplier => 1000116,
        DetectorTypeTerm::ElectronMultiplier => 1000253,
        DetectorTypeTerm::ArrayDetector => 1000345,
        DetectorTypeTerm::ConversionDynode => 1000346,
        DetectorTypeTerm::Dynode => 1000347,
        DetectorTypeTerm::FocalPlaneCollector => 1000348,
        DetectorTypeTerm::IonToPhotonDetector => 1000349,
        DetectorTypeTerm::PointCollector => 1000350,
        DetectorTypeTerm::PostaccelerationDetector => 1000351,
        DetectorTypeTerm::PhotodiodeArrayDetector => 1000621,
        DetectorTypeTerm::InductiveDetector => 1000624,
        DetectorTypeTerm::AcquityUPLCPDA => 1000818,
        DetectorTypeTerm::AcquityUPLCFLR => 1000819,
        DetectorTypeTerm::FluorescenceDetector => 1002308,
    }
}

/// The DetectorTypeTerm a controlled-vocabulary accession number names, if any.
pub open spec fn detectortypeterm_from_accession(acc: u32) -> Option<DetectorTypeTerm> {
    match acc {
        1000026u32 => Some(DetectorTypeTerm::DetectorType),
        1000107u32 => Some(DetectorTypeTerm::Channeltron),
        1000108u32 => Some(DetectorTypeTerm::ConversionDynodeElectronMultiplier),
        1000109u32 => Some(DetectorTypeTerm::ConversionDynodePhotomultiplier),
        1000110u32 => Some(DetectorTypeTerm::DalyDetector),
        1000111u32 => Some(DetectorTypeTerm::ElectronMultiplierTube),
        1000112u32 => Some(DetectorTypeTerm::FaradayCup),
        1000113u32 => Some(DetectorTypeTerm::FocalPlaneArray),
        1000114u32 => Some(DetectorTypeTerm::MicrochannelPlateDetector),
        1000115u32 => Some(DetectorTypeTerm::MultiCollector),
        1000116u32 => Some(DetectorTypeTerm::Photomultiplier),
        1000253u32 => Some(DetectorTypeTerm::ElectronMultiplier),
        1000345u32 => Some(DetectorTypeTerm::ArrayDetector),
        1000346u32 => Some(DetectorTypeTerm::ConversionDynode),
        1000347u32 => Some(DetectorTypeTerm::Dynode),
        1000348u32 => Some(DetectorTypeTerm::FocalPlaneCollector),
        1000349u32 => Some(DetectorTypeTerm::IonToPhotonDetector),
        1000350u32 => Some(DetectorTypeTerm::PointCollector),
        1000351u32 => Some(DetectorTypeTerm::PostaccelerationDetector),
        1000621u32 => Some(DetectorTypeTerm::PhotodiodeArrayDetector),
        1000624u32 => Some(DetectorTypeTerm::InductiveDetector),
        1000818u32 => Some(DetectorTypeTerm::AcquityUPLCPDA),
        1000819u32 => Some(DetectorTypeTerm::AcquityUPLCFLR),
        1002308u32 => Some(DetectorTypeTerm::FluorescenceDetector),
        _ => None,
    }
}

/// The display name of a DetectorTypeTerm.
pub open spec fn detectortypeterm_name(t: DetectorTypeTerm) -> Seq<char> {
    match t {
        DetectorTypeTerm::DetectorType => "detector type"@,
        DetectorTypeTerm::Channeltron => "channeltron"@,
        DetectorTypeTerm::ConversionDynodeElectronMultiplier => "conversion dynode electron multiplier"@,
        DetectorTypeTerm::ConversionDynodePhotomultiplier => "conversion dynode photomultiplier"@,
        DetectorTypeTerm::DalyDetector => "daly detector"@,
        DetectorTypeTerm::ElectronMultiplierTube => "electron multiplier tube"@,
        DetectorTypeTerm::FaradayCup => "faraday cup"@,
        DetectorTypeTerm::FocalPlaneArray => "focal plane array"@,
        DetectorTypeTerm::MicrochannelPlateDetector => "microchannel plate detector"@,
        DetectorTypeTerm::MultiCollector => "multi-collector"@,
        DetectorTypeTerm::Photomultiplier => "photomultiplier"@,
        DetectorTypeTerm::ElectronMultiplier => "electron multiplier"@,
        DetectorTypeTerm::ArrayDetector => "array detector"@,
        DetectorTypeTerm::ConversionDynode => "conversion dynode"@,
        DetectorTypeTerm::Dynode => "dynode"@,
        DetectorTypeTerm::FocalPlaneCollector => "focal plane collector"@,
        DetectorTypeTerm::IonToPhotonDetector => "ion-to-photon detector"@,
        DetectorTypeTerm::PointCollector => "point collector"@,
        DetectorTypeTerm::PostaccelerationDetector => "postacceleration detector"@,
        DetectorTypeTerm::PhotodiodeArrayDetector => "photodiode array detector"@,
        DetectorTypeTerm::InductiveDetector => "inductive detector"@,
        DetectorTypeTerm::AcquityUPLCPDA => "Acquity UPLC PDA"@,
        DetectorTypeTerm::AcquityUPLCFLR => "Acquity UPLC FLR"@,
        DetectorTypeTerm::FluorescenceDetector => "fluorescence detector"@,
    }
}

/// The parent terms of a DetectorTypeTerm, in table order.
pub open spec fn detectortypeterm_parents(t: DetectorTypeTerm) -> Seq<DetectorTypeTerm> {
    match t {
        DetectorTypeTerm::DetectorType => Seq::empty(),
        DetectorTypeTerm::Channeltron => seq![DetectorTypeTerm::DetectorType],
        DetectorTypeTerm::ConversionDynodeElectronMultiplier => seq![DetectorTypeTerm::ConversionDynode],
        DetectorTypeTerm::ConversionDynodePhotomultiplier => seq![DetectorTypeTerm::ConversionDynode],
        DetectorTypeTerm::DalyDetector => seq![DetectorTypeTerm::DetectorType],
        DetectorTypeTerm::ElectronMultiplierTube => seq![DetectorTypeTerm::ElectronMultiplier],
        DetectorTypeTerm::FaradayCup => seq![DetectorTypeTerm::DetectorType],
        DetectorTypeTerm::FocalPlaneArray => seq![DetectorTypeTerm::FocalPlaneCollector],
        DetectorTypeTerm::MicrochannelPlateDetector => seq![DetectorTypeTerm::ArrayDetector],
        DetectorTypeTerm::MultiCollector => seq![DetectorTypeTerm::DetectorType],
        DetectorTypeTerm::Photomultiplier => seq![DetectorTypeTerm::DetectorType],
        DetectorTypeTerm::ElectronMultiplier => seq![DetectorTypeTerm::DetectorType],
        DetectorTypeTerm::ArrayDetector => seq![DetectorTypeTerm::DetectorType],
        DetectorTypeTerm::ConversionDynode => seq![DetectorTypeTerm::DetectorType],
        DetectorTypeTerm::Dynode => seq![DetectorTypeTerm::DetectorType],
        DetectorTypeTerm::FocalPlaneCollector => seq![DetectorTypeTerm::DetectorType],
        DetectorTypeTerm::IonToPhotonDetector => seq![DetectorTypeTerm::DetectorType],
        DetectorTypeTerm::PointCollector => seq![DetectorTypeTerm::DetectorType],
        DetectorTypeTerm::PostaccelerationDetector => seq![DetectorTypeTerm::DetectorType],
        DetectorTypeTerm::PhotodiodeArrayDetector => seq![DetectorTypeTerm::ArrayDetector],
        DetectorTypeTerm::InductiveDetector => seq![DetectorTypeTerm::DetectorType],
        DetectorTypeTerm::AcquityUPLCPDA => seq![DetectorTypeTerm::PhotodiodeArrayDetector],
        DetectorTypeTerm::AcquityUPLCFLR => seq![DetectorTypeTerm::FluorescenceDetector],
        DetectorTypeTerm::FluorescenceDetector => seq![DetectorTypeTerm::DetectorType],
    }
}

impl DetectorTypeTerm {
    /// The accession number of this term.
    pub fn accession(&self) -> (r: u32)
        ensures
            r == detectortypeterm_accession(*self),
    {
        match self {
            DetectorTypeTerm::DetectorType => 1000026,
            DetectorTypeTerm::Channeltron => 1000107,
            DetectorTypeTerm::ConversionDynodeElectronMultiplier => 1000108,
            DetectorTypeTerm::ConversionDynodePhotomultiplier => 1000109,
            DetectorTypeTerm::DalyDetector => 1000110,
            DetectorTypeTerm::ElectronMultiplierTube => 1000111,
            DetectorTypeTerm::FaradayCup => 1000112,
            DetectorTypeTerm::FocalPlaneArray => 1000113,
            DetectorTypeTerm::MicrochannelPlateDetector => 1000114,
            DetectorTypeTerm::MultiCollector => 1000115,
            DetectorTypeTerm::Photomultiplier => 1000116,
            DetectorTypeTerm::ElectronMultiplier => 1000253,
            DetectorTypeTerm::ArrayDetector => 1000345,
            DetectorTypeTerm::ConversionDynode => 1000346,
            DetectorTypeTerm::Dynode => 1000347,
            DetectorTypeTerm::FocalPlaneCollector => 1000348,
            DetectorTypeTerm::IonToPhotonDetector => 1000349,
            DetectorTypeTerm::PointCollector => 1000350,
            DetectorTypeTerm::PostaccelerationDetector => 1000351,
            DetectorTypeTerm::PhotodiodeArrayDetector => 1000621,
            DetectorTypeTerm::InductiveDetector => 1000624,
            DetectorTypeTerm::AcquityUPLCPDA => 1000818,
            DetectorTypeTerm::AcquityUPLCFLR => 1000819,
            DetectorTypeTerm::FluorescenceDetector => 1002308,
        }
    }

    /// Looks a term up by its accession number.
    pub fn from_accession(acc: u32) -> (r: Option<DetectorTypeTerm>)
        ensures
            r == detectortypeterm_from_accession(acc),
    {
        match acc {
            1000026u32 => Some(DetectorTypeTerm::DetectorType),
            1000107u32 => Some(DetectorTypeTerm::Channeltron),
            1000108u32 => Some(DetectorTypeTerm::ConversionDynodeElectronMultiplier),
            1000109u32 => Some(DetectorTypeTerm::ConversionDynodePhotomultiplier),
            1000110u32 => Some(DetectorTypeTerm::DalyDetector),
            1000111u32 => Some(DetectorTypeTerm::ElectronMultiplierTube),
            1000112u32 => Some(DetectorTypeTerm::FaradayCup),
            1000113u32 => Some(DetectorTypeTerm::FocalPlaneArray),
            1000114u32 => Some(DetectorTypeTerm::MicrochannelPlateDetector),
            1000115u32 => Some(DetectorTypeTerm::MultiCollector),
            1000116u32 => Some(DetectorTypeTerm::Photomultiplier),
            1000253u32 => Some(DetectorTypeTerm::ElectronMultiplier),
            1000345u32 => Some(DetectorTypeTerm::ArrayDetector),
            1000346u32 => Some(DetectorTypeTerm::ConversionDynode),
            1000347u32 => Some(DetectorTypeTerm::Dynode),
            1000348u32 => Some(DetectorTypeTerm::FocalPlaneCollector),
            1000349u32 => Some(DetectorTypeTerm::IonToPhotonDetector),
            1000350u32 => Some(DetectorTypeTerm::PointCollector),
            1000351u32 => Some(DetectorTypeTerm::PostaccelerationDetector),
            1000621u32 => Some(DetectorTypeTerm::PhotodiodeArrayDetector),
            1000624u32 => Some(DetectorTypeTerm::InductiveDetector),
            1000818u32 => Some(DetectorTypeTerm::AcquityUPLCPDA),
            1000819u32 => Some(DetectorTypeTerm::AcquityUPLCFLR),
            1002308u32 => Some(DetectorTypeTerm::FluorescenceDetector),
            _ => None,
        }
    }

    /// The display name of this term.
    pub fn name(&self) -> (r: &'static str)
        ensures
            r@ == detectortypeterm_name(*self),
    {
        match self {
            DetectorTypeTerm::DetectorType => "detector type",
            DetectorTypeTerm::Channeltron => "channeltron",
            DetectorTypeTerm::ConversionDynodeElectronMultiplier => "conversion dynode electron multiplier",
            DetectorTypeTerm::ConversionDynodePhotomultiplier => "conversion dynode photomultiplier",
            DetectorTypeTerm::DalyDetector => "daly detector",
            DetectorTypeTerm::ElectronMultiplierTube => "electron multiplier tube",
            DetectorTypeTerm::FaradayCup => "faraday cup",
            DetectorTypeTerm::FocalPlaneArray => "focal plane array",
            DetectorTypeTerm::MicrochannelPlateDetector => "microchannel plate detector",
            DetectorTypeTerm::MultiCollector => "multi-collector",
            DetectorTypeTerm::Photomultiplier => "photomultiplier",
            DetectorTypeTerm::ElectronMultiplier => "electron multiplier",
            DetectorTypeTerm::ArrayDetector => "array detector",
            DetectorTypeTerm::ConversionDynode => "conversion dynode",
            DetectorTypeTerm::Dynode => "dynode",
            DetectorTypeTerm::FocalPlaneCollector => "focal plane collector",
            DetectorTypeTerm::IonToPhotonDetector => "ion-to-photon detector",
            DetectorTypeTerm::PointCollector => "point collector",
            DetectorTypeTerm::PostaccelerationDetector => "postacceleration detector",
            DetectorTypeTerm::PhotodiodeArrayDetector => "photodiode array detector",
            DetectorTypeTerm::InductiveDetector => "inductive detector",
            DetectorTypeTerm::AcquityUPLCPDA => "Acquity UPLC PDA",
            DetectorTypeTerm::AcquityUPLCFLR => "Acquity UPLC FLR",
            DetectorTypeTerm::FluorescenceDetector => "fluorescence detector",
        }
    }

    /// The parent terms of this term, in table order.
    pub fn parents(&self) -> (r: Vec<DetectorTypeTerm>)
        ensures
            r@ == detectortypeterm_parents(*self),
    {
        let mut v: Vec<DetectorTypeTerm> = Vec::new();
        match self {
            DetectorTypeTerm::DetectorType => {  },
            DetectorTypeTerm::Channeltron => { v.push(DetectorTypeTerm::DetectorType); },
            DetectorTypeTerm::ConversionDynodeElectronMultiplier => { v.push(DetectorTypeTerm::ConversionDynode); },
            DetectorTypeTerm::ConversionDynodePhotomultiplier => { v.push(DetectorTypeTerm::ConversionDynode); },
            DetectorTypeTerm::DalyDetector => { v.push(DetectorTypeTerm::DetectorType); },
            DetectorTypeTerm::ElectronMultiplierTube => { v.push(DetectorTypeTerm::ElectronMultiplier); },
            DetectorTypeTerm::FaradayCup => { v.push(DetectorTypeTerm::DetectorType); },
            DetectorTypeTerm::FocalPlaneArray => { v.push(DetectorTypeTerm::FocalPlaneCollector); },
            DetectorTypeTerm::MicrochannelPlateDetector => { v.push(DetectorTypeTerm::ArrayDetector); },
            DetectorTypeTerm::MultiCollector => { v.push(DetectorTypeTerm::DetectorType); },
            DetectorTypeTerm::Photomultiplier => { v.push(DetectorTypeTerm::DetectorType); },
            DetectorTypeTerm::ElectronMultiplier => { v.push(DetectorTypeTerm::DetectorType); },
            DetectorTypeTerm::ArrayDetector => { v.push(DetectorTypeTerm::DetectorType); },
            DetectorTypeTerm::ConversionDynode => { v.push(DetectorTypeTerm::DetectorType); },
            DetectorTypeTerm::Dynode => { v.push(DetectorTypeTerm::DetectorType); },
            DetectorTypeTerm::FocalPlaneCollector => { v.push(DetectorTypeTerm::DetectorType); },
            DetectorTypeTerm::IonToPhotonDetector => { v.push(DetectorTypeTerm::DetectorType); },
            DetectorTypeTerm::PointCollector => { v.push(DetectorTypeTerm::DetectorType); },
            DetectorTypeTerm::PostaccelerationDetector => { v.push(DetectorTypeTerm::DetectorType); },
            DetectorTypeTerm::PhotodiodeArrayDetector => { v.push(DetectorTypeTerm::ArrayDetector); },
            DetectorTypeTerm::InductiveDetector => { v.push(DetectorTypeTerm::DetectorType); },
            DetectorTypeTerm::AcquityUPLCPDA => { v.push(DetectorTypeTerm::PhotodiodeArrayDetector); },
            DetectorTypeTerm::AcquityUPLCFLR => { v.push(DetectorTypeTerm::FluorescenceDetector); },
            DetectorTypeTerm::FluorescenceDetector => { v.push(DetectorTypeTerm::DetectorType); },
        }
        proof {
            assert(v@ =~= detectortypeterm_parents(*self));
        }
        v
    }

    /// This term as a controlled-vocabulary parameter.
    pub fn to_param(&self) -> (r: Param)
        ensures
            r.accession == Some(detectortypeterm_accession(*self)),
            r.name@ == detectortypeterm_name(*self),
            r.controlled_vocabulary == Some(ControlledVocabulary::MS),
            param_is_ms(r),
    {
        Param {
            name: String::from_str(self.name()),
            value: String::new(),
            accession: Some(self.accession()),
            controlled_vocabulary: Some(ControlledVocabulary::MS),
        }
    }
}

/// The term of the first parameter that is in the MS vocabulary and whose
/// accession number names a MassAnalyzerTerm.
pub open spec fn first_ma_term(params: Seq<Param>) -> Option<MassAnalyzerTerm>
    decreases params.len(),
{
    if params.len() == 0 {
        None
    } else {
        let p = params[0];
        if param_is_ms(p) && p.accession is Some && massanalyzerterm_from_accession(p.accession.unwrap())
            is Some {
            massanalyzerterm_from_accession(p.accession.unwrap())
        } else {
            first_ma_term(params.skip(1))
        }
    }
}

/// The term of the first parameter (of any vocabulary) whose accession
/// number names a MassAnalyzerTerm.
pub open spec fn first_any_ma_term(params: Seq<Param>) -> Option<MassAnalyzerTerm>
    decreases params.len(),
{
    if params.len() == 0 {
        None
    } else {
        let p = params[0];
        if p.accession is Some && massanalyzerterm_from_accession(p.accession.unwrap()) is Some {
            massanalyzerterm_from_accession(p.accession.unwrap())
        } else {
            first_any_ma_term(params.skip(1))
        }
    }
}

/// The term of the first parameter that is in the MS vocabulary and whose
/// accession number names a IonizationTypeTerm.
pub open spec fn first_ion_term(params: Seq<Param>) -> Option<IonizationTypeTerm>
    decreases params.len(),
{
    if params.len() == 0 {
        None
    } else {
        let p = params[0];
        if param_is_ms(p) && p.accession is Some && ionizationtypeterm_from_accession(p.accession.unwrap())
            is Some {
            ionizationtypeterm_from_accession(p.accession.unwrap())
        } else {
            first_ion_term(params.skip(1))
        }
    }
}

/// The term of the first parameter (of any vocabulary) whose accession
/// number names a IonizationTypeTerm.
pub open spec fn first_any_ion_term(params: Seq<Param>) -> Option<IonizationTypeTerm>
    decreases params.len(),
{
    if params.len() == 0 {
        None
    } else {
        let p = params[0];
        if p.accession is Some && ionizationtypeterm_from_accession(p.accession.unwrap()) is Some {
            ionizationtypeterm_from_accession(p.accession.unwrap())
        } else {
            first_any_ion_term(params.skip(1))
        }
    }
}

/// The term of the first parameter that is in the MS vocabulary and whose
/// accession number names a DetectorTypeTerm.
pub open spec fn first_det_term(params: Seq<Param>) -> Option<DetectorTypeTerm>
    decreases params.len(),
{
    if params.len() == 0 {
        None
    } else {
        let p = params[0];
        if param_is_ms(p) && p.accession is Some && detectortypeterm_from_accession(p.accession.unwrap())
            is Some {
            detectortypeterm_from_accession(p.accession.unwrap())
        } else {
            first_det_term(params.skip(1))
        }
    }
}

/// The term of the first parameter (of any vocabulary) whose accession
/// number names a DetectorTypeTerm.
pub open spec fn first_any_det_term(params: Seq<Param>) -> Option<DetectorTypeTerm>
    decreases params.len(),
{
    if params.len() == 0 {
        None
    } else {
        let p = params[0];
        if p.accession is Some && detectortypeterm_from_accession(p.accession.unwrap()) is Some {
            detectortypeterm_from_accession(p.accession.unwrap())
        } else {
            first_any_det_term(params.skip(1))
        }
    }
}

/// A description of one part of an instrument, as typed parameters.
#[derive(Debug, Clone, PartialEq, Eq)]
pub struct Component {
    /// The kind of component this describes
    pub component_type: ComponentType,
    /// The order in the sequence of components that the analytes interact
    /// with
    pub order: u8,
    pub params: ParamList,
}

impl Component {
    /// The first mass analyzer term among the MS-vocabulary
    /// parameters, if any.
    #[verifier::loop_isolation(false)]
    pub fn mass_analyzer(&self) -> (r: Option<MassAnalyzerTerm>)
        ensures
            r == first_ma_term(self.params@),
    {
        let n = self.params.len();
        let mut i: usize = 0;
        proof {
            assert(self.params@.skip(0) =~= self.params@);
        }
        while i < n
            invariant
                0 <= i <= n,
                n == self.params@.len(),
                first_ma_term(self.params@) == first_ma_term(self.params@.skip(i as int)),
            decreases n - i,
        {
            proof {
                assert(self.params@.skip(i as int)[0] == self.params@[i as int]);
                assert(self.params@.skip(i as int).skip(1) =~= self.params@.skip(i + 1));
            }
            if self.params[i].is_ms() {
                match self.params[i].accession {
                    Some(u) => {
                        match MassAnalyzerTerm::from_accession(u) {
                            Some(t) => {
                                return Some(t);
                            },
                            None => {},
                        }
                    },
                    None => {},
                }
            }
            i += 1;
        }
        proof {
            assert(self.params@.skip(n as int) =~= Seq::<Param>::empty());
        }
        None
    }
}

impl Component {
    /// The first ionization type term among the MS-vocabulary
    /// parameters, if any.
    #[verifier::loop_isolation(false)]
    pub fn ionization_type(&self) -> (r: Option<IonizationTypeTerm>)
        ensures
            r == first_ion_term(self.params@),
    {
        let n = self.params.len();
        let mut i: usize = 0;
        proof {
            assert(self.params@.skip(0) =~= self.params@);
        }
        while i < n
            invariant
                0 <= i <= n,
                n == self.params@.len(),
                first_ion_term(self.params@) == first_ion_term(self.params@.skip(i as int)),
            decreases n - i,
        {
            proof {
                assert(self.params@.skip(i as int)[0] == self.params@[i as int]);
                assert(self.params@.skip(i as int).skip(1) =~= self.params@.skip(i + 1));
            }
            if self.params[i].is_ms() {
                match self.params[i].accession {
                    Some(u) => {
                        match IonizationTypeTerm::from_accession(u) {
                            Some(t) => {
                                return Some(t);
                            },
                            None => {},
                        }
                    },
                    None => {},
                }
            }
            i += 1;
        }
        proof {
            assert(self.params@.skip(n as int) =~= Seq::<Param>::empty());
        }
        None
    }
}

impl Component {
    /// The first detector term among the MS-vocabulary
    /// parameters, if any.
    #[verifier::loop_isolation(false)]
    pub fn detector(&self) -> (r: Option<DetectorTypeTerm>)
        ensures
            r == first_det_term(self.params@),
    {
        let n = self.params.len();
        let mut i: usize = 0;
        proof {
            assert(self.params@.skip(0) =~= self.params@);
        }
        while i < n
            invariant
                0 <= i <= n,
                n == self.params@.len(),
                first_det_term(self.params@) == first_det_term(self.params@.skip(i as int)),
            decreases n - i,
        {
            proof {
                assert(self.params@.skip(i as int)[0] == self.params@[i as int]);
                assert(self.params@.skip(i as int).skip(1) =~= self.params@.skip(i + 1));
            }
            if self.params[i].is_ms() {
                match self.params[i].accession {
                    Some(u) => {
                        match DetectorTypeTerm::from_accession(u) {
                            Some(t) => {
                                return Some(t);
                            },
                            None => {},
                        }
                    },
                    None => {},
                }
            }
            i += 1;
        }
        proof {
            assert(self.params@.skip(n as int) =~= Seq::<Param>::empty());
        }
        None
    }
}

impl Component {
    /// The first parameter of any vocabulary whose accession names a
    /// MassAnalyzerTerm.
    #[verifier::loop_isolation(false)]
    fn first_any_ma(&self) -> (r: Option<MassAnalyzerTerm>)
        ensures
            r == first_any_ma_term(self.params@),
    {
        let n = self.params.len();
        let mut i: usize = 0;
        proof {
            assert(self.params@.skip(0) =~= self.params@);
        }
        while i < n
            invariant
                0 <= i <= n,
                n == self.params@.len(),
                first_any_ma_term(self.params@) == first_any_ma_term(
                    self.params@.skip(i as int),
                ),
            decreases n - i,
        {
            proof {
                assert(self.params@.skip(i as int)[0] == self.params@[i as int]);
                assert(self.params@.skip(i as int).skip(1) =~= self.params@.skip(i + 1));
            }
            match self.params[i].accession {
                Some(u) => {
                    match MassAnalyzerTerm::from_accession(u) {
                        Some(t) => {
                            return Some(t);
                        },
                        None => {},
                    }
                },
                None => {},
            }
            i += 1;
        }
        proof {
            assert(self.params@.skip(n as int) =~= Seq::<Param>::empty());
        }
        None
    }
}

impl Component {
    /// The first parameter of any vocabulary whose accession names a
    /// IonizationTypeTerm.
    #[verifier::loop_isolation(false)]
    fn first_any_ion(&self) -> (r: Option<IonizationTypeTerm>)
        ensures
            r == first_any_ion_term(self.params@),
    {
        let n = self.params.len();
        let mut i: usize = 0;
        proof {
            assert(self.params@.skip(0) =~= self.params@);
        }
        while i < n
            invariant
                0 <= i <= n,
                n == self.params@.len(),
                first_any_ion_term(self.params@) == first_any_ion_term(
                    self.params@.skip(i as int),
                ),
            decreases n - i,
        {
            proof {
                assert(self.params@.skip(i as int)[0] == self.params@[i as int]);
                assert(self.params@.skip(i as int).skip(1) =~= self.params@.skip(i + 1));
            }
            match self.params[i].accession {
                Some(u) => {
                    match IonizationTypeTerm::from_accession(u) {
                        Some(t) => {
                            return Some(t);
                        },
                        None => {},
                    }
                },
                None => {},
            }
            i += 1;
        }
        proof {
            assert(self.params@.skip(n as int) =~= Seq::<Param>::empty());
        }
        None
    }
}

impl Component {
    /// The first parameter of any vocabulary whose accession names a
    /// DetectorTypeTerm.
    #[verifier::loop_isolation(false)]
    fn first_any_det(&self) -> (r: Option<DetectorTypeTerm>)
        ensures
            r == first_any_det_term(self.params@),
    {
        let n = self.params.len();
        let mut i: usize = 0;
        proof {
            assert(self.params@.skip(0) =~= self.params@);
        }
        while i < n
            invariant
                0 <= i <= n,
                n == self.params@.len(),
                first_any_det_term(self.params@) == first_any_det_term(
                    self.params@.skip(i as int),
                ),
            decreases n - i,
        {
            proof {
                assert(self.params@.skip(i as int)[0] == self.params@[i as int]);
                assert(self.params@.skip(i as int).skip(1) =~= self.params@.skip(i + 1));
            }
            match self.params[i].accession {
                Some(u) => {
                    match DetectorTypeTerm::from_accession(u) {
                        Some(t) => {
                            return Some(t);
                        },
                        None => {},
                    }
                },
                None => {},
            }
            i += 1;
        }
        proof {
            assert(self.params@.skip(n as int) =~= Seq::<Param>::empty());
        }
        None
    }
}

/// The display name a component reports: the name of its first recognized
/// MS-vocabulary term of the kind its tag selects.
pub open spec fn component_name(c: Component) -> Option<Seq<char>> {
    match c.component_type {
        ComponentType::Analyzer => match first_ma_term(c.params@) {
            Some(t) => Some(massanalyzerterm_name(t)),
            None => None,
        },
        ComponentType::IonSource => match first_ion_term(c.params@) {
            Some(t) => Some(ionizationtypeterm_name(t)),
            None => None,
        },
        ComponentType::Detector => match first_det_term(c.params@) {
            Some(t) => Some(detectortypeterm_name(t)),
            None => None,
        },
        ComponentType::Unknown => None,
    }
}

impl Component {
    /// The display name of the first recognized term of this component's
    /// kind, if any.
    pub fn name(&self) -> (r: Option<&'static str>)
        ensures
            match r {
                Some(s) => component_name(*self) == Some(s@),
                None => component_name(*self) is None,
            },
    {
        match self.component_type {
            ComponentType::Analyzer => {
                match self.mass_analyzer() {
                    Some(t) => Some(t.name()),
                    None => None,
                }
            },
            ComponentType::IonSource => {
                match self.ionization_type() {
                    Some(t) => Some(t.name()),
                    None => None,
                }
            },
            ComponentType::Detector => {
                match self.detector() {
                    Some(t) => Some(t.name()),
                    None => None,
                }
            },
            ComponentType::Unknown => None,
        }
    }
}


/// `r` holds, in order, one MS parameter for each parent of `t`.
pub open spec fn parent_params_ok_ma(r: Seq<Param>, t: MassAnalyzerTerm) -> bool {
    &&& r.len() == massanalyzerterm_parents(t).len()
    &&& forall|i: int|
        0 <= i < r.len() ==> (#[trigger] r[i]).accession == Some(
            massanalyzerterm_accession(massanalyzerterm_parents(t)[i]),
        ) && r[i].name@ == massanalyzerterm_name(massanalyzerterm_parents(t)[i]) && param_is_ms(r[i])
}

/// `r` holds, in order, one MS parameter for each parent of `t`.
pub open spec fn parent_params_ok_ion(r: Seq<Param>, t: IonizationTypeTerm) -> bool {
    &&& r.len() == ionizationtypeterm_parents(t).len()
    &&& forall|i: int|
        0 <= i < r.len() ==> (#[trigger] r[i]).accession == Some(
            ionizationtypeterm_accession(ionizationtypeterm_parents(t)[i]),
        ) && r[i].name@ == ionizationtypeterm_name(ionizationtypeterm_parents(t)[i]) && param_is_ms(r[i])
}

/// `r` holds, in order, one MS parameter for each parent of `t`.
pub open spec fn parent_params_ok_det(r: Seq<Param>, t: DetectorTypeTerm) -> bool {
    &&& r.len() == detectortypeterm_parents(t).len()
    &&& forall|i: int|
        0 <= i < r.len() ==> (#[trigger] r[i]).accession == Some(
            detectortypeterm_accession(detectortypeterm_parents(t)[i]),
        ) && r[i].name@ == detectortypeterm_name(detectortypeterm_parents(t)[i]) && param_is_ms(r[i])
}

impl Component {
    /// The parent terms of this component's first recognized term, each as a
    /// controlled-vocabulary parameter; empty when nothing is recognized.
    #[verifier::loop_isolation(false)]
    pub fn parent_types(&self) -> (r: Vec<Param>)
        ensures
            match self.component_type {
                ComponentType::Analyzer => match first_any_ma_term(self.params@) {
                    Some(t) => parent_params_ok_ma(r@, t),
                    None => r@.len() == 0,
                },
                ComponentType::IonSource => match first_any_ion_term(self.params@) {
                    Some(t) => parent_params_ok_ion(r@, t),
                    None => r@.len() == 0,
                },
                ComponentType::Detector => match first_any_det_term(self.params@) {
                    Some(t) => parent_params_ok_det(r@, t),
                    None => r@.len() == 0,
                },
                ComponentType::Unknown => r@.len() == 0,
            },
    {
        let mut r: Vec<Param> = Vec::new();
        match self.component_type {
            ComponentType::Analyzer => {
                match self.first_any_ma() {
                    Some(t) => {
                        let ps = t.parents();
                        let mut j: usize = 0;
                        while j < ps.len()
                            invariant
                                0 <= j <= ps@.len(),
                                ps@ == massanalyzerterm_parents(t),
                                r@.len() == j,
                                forall|i: int|
                                    0 <= i < j ==> (#[trigger] r@[i]).accession == Some(
                                        massanalyzerterm_accession(massanalyzerterm_parents(t)[i]),
                                    ) && r@[i].name@ == massanalyzerterm_name(
                                        massanalyzerterm_parents(t)[i],
                                    ) && param_is_ms(r@[i]),
                            decreases ps@.len() - j,
                        {
                            r.push(ps[j].to_param());
                            j += 1;
                        }
                    },
                    None => {},
                }
            },
            ComponentType::IonSource => {
                match self.first_any_ion() {
                    Some(t) => {
                        let ps = t.parents();
                        let mut j: usize = 0;
                        while j < ps.len()
                            invariant
                                0 <= j <= ps@.len(),
                                ps@ == ionizationtypeterm_parents(t),
                                r@.len() == j,
                                forall|i: int|
                                    0 <= i < j ==> (#[trigger] r@[i]).accession == Some(
                                        ionizationtypeterm_accession(
                                            ionizationtypeterm_parents(t)[i],
                                        ),
                                    ) && r@[i].name@ == ionizationtypeterm_name(
                                        ionizationtypeterm_parents(t)[i],
                                    ) && param_is_ms(r@[i]),
                            decreases ps@.len() - j,
                        {
                            r.push(ps[j].to_param());
                            j += 1;
                        }
                    },
                    None => {},
                }
            },
            ComponentType::Detector => {
                match self.first_any_det() {
                    Some(t) => {
                        let ps = t.parents();
                        let mut j: usize = 0;
                        while j < ps.len()
                            invariant
                                0 <= j <= ps@.len(),
                                ps@ == detectortypeterm_parents(t),
                                r@.len() == j,
                                forall|i: int|
                                    0 <= i < j ==> (#[trigger] r@[i]).accession == Some(
                                        detectortypeterm_accession(detectortypeterm_parents(t)[i]),
                                    ) && r@[i].name@ == detectortypeterm_name(
                                        detectortypeterm_parents(t)[i],
                                    ) && param_is_ms(r@[i]),
                            decreases ps@.len() - j,
                        {
                            r.push(ps[j].to_param());
                            j += 1;
                        }
                    },
                    None => {},
                }
            },
            ComponentType::Unknown => {},
        }
        r
    }
}

/// A series of mass spectrometer components that together were engaged to
/// acquire a mass spectrum.
#[derive(Debug, Clone, PartialEq, Eq)]
pub struct InstrumentConfiguration {
    /// The set of components involved
    pub components: Vec<Component>,
    /// A set of parameters that describe the instrument as a whole
    pub params: ParamList,
    /// A reference to the data acquisition software involved
    pub software_reference: String,
    /// A unique identifier translated to an ordinal
    pub id: u32,
}

impl InstrumentConfiguration {
    /// Appends a new component of the given kind at the end of the list,
    /// its order set to its position.
    pub fn new_component(&mut self, component_type: ComponentType)
        ensures
            final(self).components@.len() == old(self).components@.len() + 1,
            final(self).components@.last().component_type == component_type,
            final(self).components@.last().order == (old(self).components@.len() % 256) as u8,
            final(self).components@.last().params@.len() == 0,
            forall|i: int|
                0 <= i < old(self).components@.len() ==> final(self).components@[i] == old(
                    self,
                ).components@[i],
            final(self).params == old(self).params,
            final(self).software_reference == old(self).software_reference,
            final(self).id == old(self).id,
    {
        let component = Component {
            component_type,
            order: 0,
            params: Vec::new(),
        };
        self.push(component);
    }

    /// How many components the configuration holds.
    pub fn len(&self) -> (r: usize)
        ensures
            r == self.components@.len(),
    {
        self.components.len()
    }

    pub fn is_empty(&self) -> (r: bool)
        ensures
            r == (self.components@.len() == 0),
    {
        self.components.is_empty()
    }

    /// Appends `value` at the end of the list, setting its order field to
    /// its position (wrapped to a byte).
    pub fn push(&mut self, value: Component)
        ensures
            final(self).components@.len() == old(self).components@.len() + 1,
            final(self).components@.last().component_type == value.component_type,
            final(self).components@.last().order == (old(self).components@.len() % 256) as u8,
            final(self).components@.last().params == value.params,
            forall|i: int|
                0 <= i < old(self).components@.len() ==> final(self).components@[i] == old(
                    self,
                ).components@[i],
            final(self).params == old(self).params,
            final(self).software_reference == old(self).software_reference,
            final(self).id == old(self).id,
    {
        let mut value = value;
        let n = self.len();
        value.order = (n % 256) as u8;
        self.components.push(value);
    }

    /// The components, in order.
    pub fn iter(&self) -> (r: &Vec<Component>)
        ensures
            r == &self.components,
    {
        &self.components
    }

    /// The last component, if any.
    pub fn last(&self) -> (r: Option<&Component>)
        ensures
            match r {
                Some(c) => self.components@.len() > 0 && *c == self.components@.last(),
                None => self.components@.len() == 0,
            },
    {
        self.components.as_slice().last()
    }
}

} // verus!


