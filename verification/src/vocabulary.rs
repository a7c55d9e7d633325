//! The vocabularies in which the trade describes a book: the relators of
//! the MARC list, the code lists of ONIX, the elements and the terms of
//! the Dublin Core, and the structural semantics of an EPUB.

use crate::text::str_eq;
use vstd::prelude::*;
use vstd::string::*;

verus! {

/// The partitions of a document.
#[derive(Debug, PartialEq, Eq, Structural, Clone, Copy, Hash)]
pub enum DocumentPartition {
    Cover,
    Frontmatter,
    Bodymatter,
    Backmatter,
}

/// The divisions of a document.
#[derive(Debug, PartialEq, Eq, Structural, Clone, Copy, Hash)]
pub enum DocumentDivision {
    Volume,
    Part,
    Chapter,
}

/// The sections and components of a document.
#[derive(Debug, PartialEq, Eq, Structural, Clone, Copy, Hash)]
pub enum DocumentSectionOrComponent {
    Abstract,
    Foreword,
    Preface,
    Prologue,
    Introduction,
    Preamble,
    Conclusion,
    Epilogue,
    Afterword,
    Epigraph,
}

/// The aids to navigation in a document.
#[derive(Debug, PartialEq, Eq, Structural, Clone, Copy, Hash)]
pub enum DocumentNavigation {
    Toc,
    TocBrief,
    Landmarks,
    Loa,
    Loi,
    Lot,
    Lov,
}

/// The sections of a document that are looked things up in.
#[derive(Debug, PartialEq, Eq, Structural, Clone, Copy, Hash)]
pub enum DocumentReferenceSection {
    Appendix,
    Colophon,
    Credits,
    Keywords,
}

/// The sections that come before the text.
#[derive(Debug, PartialEq, Eq, Structural, Clone, Copy, Hash)]
pub enum PreliminarySection {
    Titlepage,
    Halftitlepage,
    CopyrightPage,
    SeriesPage,
    Acknowledgements,
    Imprint,
    Imprimatur,
    Contributors,
    OtherCredits,
    Errata,
    Dedication,
    RevisionHistory,
}

/// The titles and headings of a document.
#[derive(Debug, PartialEq, Eq, Structural, Clone, Copy, Hash)]
pub enum TitlesAndHeadings {
    Halftitle,
    Fulltitle,
    Covertitle,
    Title,
    Subtitle,
    Bridgehead,
}

/// The notes of a document.
#[derive(Debug, PartialEq, Eq, Structural, Clone, Copy, Hash)]
pub enum Notes {
    Footnote,
    Endnote,
    Footnotes,
    Endnotes,
    NoteRef,
}

/// The relators of the MARC list: what somebody did for a work.
#[derive(Debug, PartialEq, Eq, Structural, Clone, Copy, Hash)]
pub enum MarcRelator {
    /// Abridger.
    Abr,
    /// Actor.
    Act,
    /// Adapter.
    Adp,
    /// Addressee.
    Rcp,
    /// Analyst.
    Anl,
    /// Animator.
    Anm,
    /// Annotator.
    Ann,
    /// Appellant.
    Apl,
    /// Appellee.
    Ape,
    /// Applicant.
    App,
    /// Architect.
    Arc,
    /// Arranger.
    Arr,
    /// Art copyist.
    Acp,
    /// Art director.
    Adi,
    /// Artist.
    Art,
    /// Artistic director.
    Ard,
    /// Assignee.
    Asg,
    /// Associated name.
    Asn,
    /// Attributed name.
    Att,
    /// Auctioneer.
    Auc,
    /// Author.
    Aut,
    /// Author in quotations or text abstracts.
    Aqt,
    /// Author of afterword, colophon, etc.
    Aft,
    /// Author of dialog.
    Aud,
    /// Author of introduction, etc.
    Aui,
    /// Autographer.
    Ato,
    /// Bibliographic antecedent.
    Ant,
    /// Binder.
    Bnd,
    /// Binding designer.
    Bdd,
    /// Blurb writer.
    Blw,
    /// Book designer.
    Bkd,
    /// Book producer.
    Bkp,
    /// Bookjacket designer.
    Bjd,
    /// Bookplate designer.
    Bpd,
    /// Bookseller.
    Bsl,
    /// Braille embosser.
    Brl,
    /// Broadcaster.
    Brd,
    /// Calligrapher.
    Cll,
    /// Cartographer.
    Ctg,
    /// Caster.
    Cas,
    /// Censor.
    Cns,
    /// Choreographer.
    Chr,
    /// Cinematographer.
    Cng,
    /// Client.
    Cli,
    /// Collection registrar.
    Cor,
    /// Collector.
    Col,
    /// Collotyper.
    Clt,
    /// Colorist.
    Clr,
    /// Commentator.
    Cmm,
    /// Commentator for written text.
    Cwt,
    /// Compiler.
    Com,
    /// Complainant.
    Cpl,
    /// Complainant-appellant.
    Cpt,
    /// Complainant-appellee.
    Cpe,
    /// Composer.
    Cmp,
    /// Compositor.
    Cmt,
    /// Conceptor.
    Ccp,
    /// Conductor.
    Cnd,
    /// Conservator.
    Con,
    /// Consultant.
    Csl,
    /// Consultant to a project.
    Csp,
    /// Contestant.
    Cos,
    /// Contestant-appellant.
    Cot,
    /// Contestant-appellee.
    Coe,
    /// Contestee.
    Cts,
    /// Contestee-appellant.
    Ctt,
    /// Contestee-appellee.
    Cte,
    /// Contractor.
    Ctr,
    /// Contributor.
    Ctb,
    /// Copyright claimant.
    Cpc,
    /// Copyright holder.
    Cph,
    /// Corrector.
    Crr,
    /// Correspondent.
    Crp,
    /// Costume designer.
    Cst,
    /// Court governed.
    Cou,
    /// Court reporter.
    Crt,
    /// Cover designer.
    Cov,
    /// Creator.
    Cre,
    /// Curator.
    Cur,
    /// Dancer.
    Dnc,
    /// Data contributor.
    Dtc,
    /// Data manager.
    Dtm,
    /// Dedicatee.
    Dte,
    /// Dedicator.
    Dto,
    /// Defendant.
    Dfd,
    /// Defendant-appellant.
    Dft,
    /// Defendant-appellee.
    Dfe,
    /// Degree granting institution.
    Dgg,
    /// Degree supervisor.
    Dgs,
    /// Delineator.
    Dln,
    /// Depicted.
    Dpc,
    /// Depositor.
    Dpt,
    /// Designer.
    Dsr,
    /// Director.
    Drt,
    /// Dissertant.
    Dis,
    /// Distribution place.
    Dbp,
    /// Distributor.
    Dst,
    /// Donor.
    Dnr,
    /// Draftsman.
    Drm,
    /// Dubious author.
    Dub,
    /// Editor.
    Edt,
    /// Editor of compilation.
    Edc,
    /// Editor of moving image work.
    Edm,
    /// Electrician.
    Elg,
    /// Electrotyper.
    Elt,
    /// Enacting jurisdiction.
    Enj,
    /// Engineer.
    Eng,
    /// Engraver.
    Egr,
    /// Etcher.
    Etr,
    /// Event place.
    Evp,
    /// Expert.
    Exp,
    /// Facsimilist.
    Fac,
    /// Field director.
    Fld,
    /// Film director.
    Fmd,
    /// Film distributor.
    Fds,
    /// Film editor.
    Flm,
    /// Film producer.
    Fmp,
    /// Filmmaker.
    Fmk,
    /// First party.
    Fpy,
    /// Forger.
    Frg,
    /// Former owner.
    Fmo,
    /// Funder.
    Fnd,
    /// Geographic information specialist.
    Gis,
    /// Honoree.
    Hnr,
    /// Host.
    Hst,
    /// Host institution.
    His,
    /// Illuminator.
    Ilu,
    /// Illustrator.
    Ill,
    /// Inscriber.
    Ins,
    /// Instrumentalist.
    Itr,
    /// Interviewee.
    Ive,
    /// Interviewer.
    Ivr,
    /// Inventor.
    Inv,
    /// Issuing body.
    Isb,
    /// Judge.
    Jud,
    /// Jurisdiction governed.
    Jug,
    /// Laboratory.
    Lbr,
    /// Laboratory director.
    Ldr,
    /// Landscape architect.
    Lsa,
    /// Lead.
    Led,
    /// Lender.
    Len,
    /// Libelant.
    Lil,
    /// Libelant-appellant.
    Lit,
    /// Libelant-appellee.
    Lie,
    /// Libelee.
    Lel,
    /// Libelee-appellant.
    Let,
    /// Libelee-appellee.
    Lee,
    /// Librettist.
    Lbt,
    /// Licensee.
    Lse,
    /// Licensor.
    Lso,
    /// Lighting designer.
    Lgd,
    /// Lithographer.
    Ltg,
    /// Lyricist.
    Lyr,
    /// Manufacture place.
    Mfp,
    /// Manufacturer.
    Mfr,
    /// Marbler.
    Mrb,
    /// Markup editor.
    Mrk,
    /// Medium.
    Med,
    /// Metadata contact.
    Mdc,
    /// Metal-engraver.
    Mte,
    /// Minute taker.
    Mtk,
    /// Moderator.
    Mod,
    /// Monitor.
    Mon,
    /// Music copyist.
    Mcp,
    /// Musical director.
    Msd,
    /// Musician.
    Mus,
    /// Narrator.
    Nrt,
    /// Onscreen presenter.
    Osp,
    /// Opponent.
    Opn,
    /// Organizer.
    Orm,
    /// Originator.
    Org,
    /// Other.
    Oth,
    /// Owner.
    Own,
    /// Panelist.
    Pan,
    /// Papermaker.
    Ppm,
    /// Patent applicant.
    Pta,
    /// Patent holder.
    Pth,
    /// Patron.
    Pat,
    /// Performer.
    Prf,
    /// Permitting agency.
    Pma,
    /// Photographer.
    Pht,
    /// Plaintiff.
    Ptf,
    /// Plaintiff-appellant.
    Ptt,
    /// Plaintiff-appellee.
    Pte,
    /// Platemaker.
    Plt,
    /// Praeses.
    Pra,
    /// Presenter.
    Pre,
    /// Printer.
    Prt,
    /// Printer of plates.
    Pop,
    /// Printmaker.
    Prm,
    /// Process contact.
    Prc,
    /// Producer.
    Pro,
    /// Production company.
    Prn,
    /// Production designer.
    Prs,
    /// Production manager.
    Pmn,
    /// Production personnel.
    Prd,
    /// Production place.
    Prp,
    /// Programmer.
    Prg,
    /// Project director.
    Pdr,
    /// Proofreader.
    Pfr,
    /// Provider.
    Prv,
    /// Publication place.
    Pup,
    /// Publisher.
    Pbl,
    /// Publishing director.
    Pbd,
    /// Puppeteer.
    Ppt,
    /// Radio director.
    Rdd,
    /// Radio producer.
    Rpc,
    /// Recording engineer.
    Rce,
    /// Recordist.
    Rcd,
    /// Redaktor.
    Red,
    /// Renderer.
    Ren,
    /// Reporter.
    Rpt,
    /// Repository.
    Rps,
    /// Research team head.
    Rth,
    /// Research team member.
    Rtm,
    /// Researcher.
    Res,
    /// Respondent.
    Rsp,
    /// Respondent-appellant.
    Rst,
    /// Respondent-appellee.
    Rse,
    /// Responsible party.
    Rpy,
    /// Restager.
    Rsg,
    /// Restorationist.
    Rsr,
    /// Critic of a work.
    Rev,
    /// Rubricator.
    Rbr,
    /// Scenarist.
    Sce,
    /// Scientific advisor.
    Sad,
    /// Screenwriter.
    Aus,
    /// Scribe.
    Scr,
    /// Sculptor.
    Scl,
    /// Second party.
    Spy,
    /// Secretary.
    Sec,
    /// Seller.
    Sll,
    /// Set designer.
    Std,
    /// Setting.
    Stg,
    /// Signer.
    Sgn,
    /// Singer.
    Sng,
    /// Sound designer.
    Sds,
    /// Speaker.
    Spk,
    /// Sponsor.
    Spn,
    /// Stage director.
    Sgd,
    /// Stage manager.
    Stm,
    /// Standards body.
    Stn,
    /// Stereotyper.
    Str,
    /// Storyteller.
    Stl,
    /// Supporting host.
    Sht,
    /// Surveyor.
    Srv,
    /// Teacher.
    Tch,
    /// Technical director.
    Tcd,
    /// Television director.
    Tld,
    /// Television producer.
    Tlp,
    /// Thesis advisor.
    Ths,
    /// Transcriber.
    Trc,
    /// Translator.
    Trl,
    /// Type designer.
    Tyd,
    /// Typographer.
    Tyg,
    /// University place.
    Uvp,
    /// Videographer.
    Vdg,
    /// Voice actor.
    Vac,
    /// Witness.
    Wit,
    /// Wood engraver.
    Wde,
    /// Woodcutter.
    Wdc,
    /// Writer of accompanying material.
    Wam,
    /// Writer of added commentary.
    Wac,
    /// Writer of added lyrics.
    Wal,
    /// Writer of added text.
    Wat,
    /// Writer of introduction.
    Win,
    /// Writer of preface.
    Wpr,
    /// Writer of supplementary textual content.
    Wst,
}

impl MarcRelator {
    /// The code of this relator.
    pub open spec fn code(self) -> Seq<char> {
        match self {
            MarcRelator::Abr => "abr"@,
            MarcRelator::Act => "act"@,
            MarcRelator::Adp => "adp"@,
            MarcRelator::Rcp => "rcp"@,
            MarcRelator::Anl => "anl"@,
            MarcRelator::Anm => "anm"@,
            MarcRelator::Ann => "ann"@,
            MarcRelator::Apl => "apl"@,
            MarcRelator::Ape => "ape"@,
            MarcRelator::App => "app"@,
            MarcRelator::Arc => "arc"@,
            MarcRelator::Arr => "arr"@,
            MarcRelator::Acp => "acp"@,
            MarcRelator::Adi => "adi"@,
            MarcRelator::Art => "art"@,
            MarcRelator::Ard => "ard"@,
            MarcRelator::Asg => "asg"@,
            MarcRelator::Asn => "asn"@,
            MarcRelator::Att => "att"@,
            MarcRelator::Auc => "auc"@,
            MarcRelator::Aut => "aut"@,
            MarcRelator::Aqt => "aqt"@,
            MarcRelator::Aft => "aft"@,
            MarcRelator::Aud => "aud"@,
            MarcRelator::Aui => "aui"@,
            MarcRelator::Ato => "ato"@,
            MarcRelator::Ant => "ant"@,
            MarcRelator::Bnd => "bnd"@,
            MarcRelator::Bdd => "bdd"@,
            MarcRelator::Blw => "blw"@,
            MarcRelator::Bkd => "bkd"@,
            MarcRelator::Bkp => "bkp"@,
            MarcRelator::Bjd => "bjd"@,
            MarcRelator::Bpd => "bpd"@,
            MarcRelator::Bsl => "bsl"@,
            MarcRelator::Brl => "brl"@,
            MarcRelator::Brd => "brd"@,
            MarcRelator::Cll => "cll"@,
            MarcRelator::Ctg => "ctg"@,
            MarcRelator::Cas => "cas"@,
            MarcRelator::Cns => "cns"@,
            MarcRelator::Chr => "chr"@,
            MarcRelator::Cng => "cng"@,
            MarcRelator::Cli => "cli"@,
            MarcRelator::Cor => "cor"@,
            MarcRelator::Col => "col"@,
            MarcRelator::Clt => "clt"@,
            MarcRelator::Clr => "clr"@,
            MarcRelator::Cmm => "cmm"@,
            MarcRelator::Cwt => "cwt"@,
            MarcRelator::Com => "com"@,
            MarcRelator::Cpl => "cpl"@,
            MarcRelator::Cpt => "cpt"@,
            MarcRelator::Cpe => "cpe"@,
            MarcRelator::Cmp => "cmp"@,
            MarcRelator::Cmt => "cmt"@,
            MarcRelator::Ccp => "ccp"@,
            MarcRelator::Cnd => "cnd"@,
            MarcRelator::Con => "con"@,
            MarcRelator::Csl => "csl"@,
            MarcRelator::Csp => "csp"@,
            MarcRelator::Cos => "cos"@,
            MarcRelator::Cot => "cot"@,
            MarcRelator::Coe => "coe"@,
            MarcRelator::Cts => "cts"@,
            MarcRelator::Ctt => "ctt"@,
            MarcRelator::Cte => "cte"@,
            MarcRelator::Ctr => "ctr"@,
            MarcRelator::Ctb => "ctb"@,
            MarcRelator::Cpc => "cpc"@,
            MarcRelator::Cph => "cph"@,
            MarcRelator::Crr => "crr"@,
            MarcRelator::Crp => "crp"@,
            MarcRelator::Cst => "cst"@,
            MarcRelator::Cou => "cou"@,
            MarcRelator::Crt => "crt"@,
            MarcRelator::Cov => "cov"@,
            MarcRelator::Cre => "cre"@,
            MarcRelator::Cur => "cur"@,
            MarcRelator::Dnc => "dnc"@,
            MarcRelator::Dtc => "dtc"@,
            MarcRelator::Dtm => "dtm"@,
            MarcRelator::Dte => "dte"@,
            MarcRelator::Dto => "dto"@,
            MarcRelator::Dfd => "dfd"@,
            MarcRelator::Dft => "dft"@,
            MarcRelator::Dfe => "dfe"@,
            MarcRelator::Dgg => "dgg"@,
            MarcRelator::Dgs => "dgs"@,
            MarcRelator::Dln => "dln"@,
            MarcRelator::Dpc => "dpc"@,
            MarcRelator::Dpt => "dpt"@,
            MarcRelator::Dsr => "dsr"@,
            MarcRelator::Drt => "drt"@,
            MarcRelator::Dis => "dis"@,
            MarcRelator::Dbp => "dbp"@,
            MarcRelator::Dst => "dst"@,
            MarcRelator::Dnr => "dnr"@,
            MarcRelator::Drm => "drm"@,
            MarcRelator::Dub => "dub"@,
            MarcRelator::Edt => "edt"@,
            MarcRelator::Edc => "edc"@,
            MarcRelator::Edm => "edm"@,
            MarcRelator::Elg => "elg"@,
            MarcRelator::Elt => "elt"@,
            MarcRelator::Enj => "enj"@,
            MarcRelator::Eng => "eng"@,
            MarcRelator::Egr => "egr"@,
            MarcRelator::Etr => "etr"@,
            MarcRelator::Evp => "evp"@,
            MarcRelator::Exp => "exp"@,
            MarcRelator::Fac => "fac"@,
            MarcRelator::Fld => "fld"@,
            MarcRelator::Fmd => "fmd"@,
            MarcRelator::Fds => "fds"@,
            MarcRelator::Flm => "flm"@,
            MarcRelator::Fmp => "fmp"@,
            MarcRelator::Fmk => "fmk"@,
            MarcRelator::Fpy => "fpy"@,
            MarcRelator::Frg => "frg"@,
            MarcRelator::Fmo => "fmo"@,
            MarcRelator::Fnd => "fnd"@,
            MarcRelator::Gis => "gis"@,
            MarcRelator::Hnr => "hnr"@,
            MarcRelator::Hst => "hst"@,
            MarcRelator::His => "his"@,
            MarcRelator::Ilu => "ilu"@,
            MarcRelator::Ill => "ill"@,
            MarcRelator::Ins => "ins"@,
            MarcRelator::Itr => "itr"@,
            MarcRelator::Ive => "ive"@,
            MarcRelator::Ivr => "ivr"@,
            MarcRelator::Inv => "inv"@,
            MarcRelator::Isb => "isb"@,
            MarcRelator::Jud => "jud"@,
            MarcRelator::Jug => "jug"@,
            MarcRelator::Lbr => "lbr"@,
            MarcRelator::Ldr => "ldr"@,
            MarcRelator::Lsa => "lsa"@,
            MarcRelator::Led => "led"@,
            MarcRelator::Len => "len"@,
            MarcRelator::Lil => "lil"@,
            MarcRelator::Lit => "lit"@,
            MarcRelator::Lie => "lie"@,
            MarcRelator::Lel => "lel"@,
            MarcRelator::Let => "let"@,
            MarcRelator::Lee => "lee"@,
            MarcRelator::Lbt => "lbt"@,
            MarcRelator::Lse => "lse"@,
            MarcRelator::Lso => "lso"@,
            MarcRelator::Lgd => "lgd"@,
            MarcRelator::Ltg => "ltg"@,
            MarcRelator::Lyr => "lyr"@,
            MarcRelator::Mfp => "mfp"@,
            MarcRelator::Mfr => "mfr"@,
            MarcRelator::Mrb => "mrb"@,
            MarcRelator::Mrk => "mrk"@,
            MarcRelator::Med => "med"@,
            MarcRelator::Mdc => "mdc"@,
            MarcRelator::Mte => "mte"@,
            MarcRelator::Mtk => "mtk"@,
            MarcRelator::Mod => "mod"@,
            MarcRelator::Mon => "mon"@,
            MarcRelator::Mcp => "mcp"@,
            MarcRelator::Msd => "msd"@,
            MarcRelator::Mus => "mus"@,
            MarcRelator::Nrt => "nrt"@,
            MarcRelator::Osp => "osp"@,
            MarcRelator::Opn => "opn"@,
            MarcRelator::Orm => "orm"@,
            MarcRelator::Org => "org"@,
            MarcRelator::Oth => "oth"@,
            MarcRelator::Own => "own"@,
            MarcRelator::Pan => "pan"@,
            MarcRelator::Ppm => "ppm"@,
            MarcRelator::Pta => "pta"@,
            MarcRelator::Pth => "pth"@,
            MarcRelator::Pat => "pat"@,
            MarcRelator::Prf => "prf"@,
            MarcRelator::Pma => "pma"@,
            MarcRelator::Pht => "pht"@,
            MarcRelator::Ptf => "ptf"@,
            MarcRelator::Ptt => "ptt"@,
            MarcRelator::Pte => "pte"@,
            MarcRelator::Plt => "plt"@,
            MarcRelator::Pra => "pra"@,
            MarcRelator::Pre => "pre"@,
            MarcRelator::Prt => "prt"@,
            MarcRelator::Pop => "pop"@,
            MarcRelator::Prm => "prm"@,
            MarcRelator::Prc => "prc"@,
            MarcRelator::Pro => "pro"@,
            MarcRelator::Prn => "prn"@,
            MarcRelator::Prs => "prs"@,
            MarcRelator::Pmn => "pmn"@,
            MarcRelator::Prd => "prd"@,
            MarcRelator::Prp => "prp"@,
            MarcRelator::Prg => "prg"@,
            MarcRelator::Pdr => "pdr"@,
            MarcRelator::Pfr => "pfr"@,
            MarcRelator::Prv => "prv"@,
            MarcRelator::Pup => "pup"@,
            MarcRelator::Pbl => "pbl"@,
            MarcRelator::Pbd => "pbd"@,
            MarcRelator::Ppt => "ppt"@,
            MarcRelator::Rdd => "rdd"@,
            MarcRelator::Rpc => "rpc"@,
            MarcRelator::Rce => "rce"@,
            MarcRelator::Rcd => "rcd"@,
            MarcRelator::Red => "red"@,
            MarcRelator::Ren => "ren"@,
            MarcRelator::Rpt => "rpt"@,
            MarcRelator::Rps => "rps"@,
            MarcRelator::Rth => "rth"@,
            MarcRelator::Rtm => "rtm"@,
            MarcRelator::Res => "res"@,
            MarcRelator::Rsp => "rsp"@,
            MarcRelator::Rst => "rst"@,
            MarcRelator::Rse => "rse"@,
            MarcRelator::Rpy => "rpy"@,
            MarcRelator::Rsg => "rsg"@,
            MarcRelator::Rsr => "rsr"@,
            MarcRelator::Rev => "rev"@,
            MarcRelator::Rbr => "rbr"@,
            MarcRelator::Sce => "sce"@,
            MarcRelator::Sad => "sad"@,
            MarcRelator::Aus => "aus"@,
            MarcRelator::Scr => "scr"@,
            MarcRelator::Scl => "scl"@,
            MarcRelator::Spy => "spy"@,
            MarcRelator::Sec => "sec"@,
            MarcRelator::Sll => "sll"@,
            MarcRelator::Std => "std"@,
            MarcRelator::Stg => "stg"@,
            MarcRelator::Sgn => "sgn"@,
            MarcRelator::Sng => "sng"@,
            MarcRelator::Sds => "sds"@,
            MarcRelator::Spk => "spk"@,
            MarcRelator::Spn => "spn"@,
            MarcRelator::Sgd => "sgd"@,
            MarcRelator::Stm => "stm"@,
            MarcRelator::Stn => "stn"@,
            MarcRelator::Str => "str"@,
            MarcRelator::Stl => "stl"@,
            MarcRelator::Sht => "sht"@,
            MarcRelator::Srv => "srv"@,
            MarcRelator::Tch => "tch"@,
            MarcRelator::Tcd => "tcd"@,
            MarcRelator::Tld => "tld"@,
            MarcRelator::Tlp => "tlp"@,
            MarcRelator::Ths => "ths"@,
            MarcRelator::Trc => "trc"@,
            MarcRelator::Trl => "trl"@,
            MarcRelator::Tyd => "tyd"@,
            MarcRelator::Tyg => "tyg"@,
            MarcRelator::Uvp => "uvp"@,
            MarcRelator::Vdg => "vdg"@,
            MarcRelator::Vac => "vac"@,
            MarcRelator::Wit => "wit"@,
            MarcRelator::Wde => "wde"@,
            MarcRelator::Wdc => "wdc"@,
            MarcRelator::Wam => "wam"@,
            MarcRelator::Wac => "wac"@,
            MarcRelator::Wal => "wal"@,
            MarcRelator::Wat => "wat"@,
            MarcRelator::Win => "win"@,
            MarcRelator::Wpr => "wpr"@,
            MarcRelator::Wst => "wst"@,
        }
    }

    /// The code of this relator.
    pub fn as_code(self) -> (r: &'static str)
        ensures
            r@ == self.code(),
    {
        match self {
            MarcRelator::Abr => "abr",
            MarcRelator::Act => "act",
            MarcRelator::Adp => "adp",
            MarcRelator::Rcp => "rcp",
            MarcRelator::Anl => "anl",
            MarcRelator::Anm => "anm",
            MarcRelator::Ann => "ann",
            MarcRelator::Apl => "apl",
            MarcRelator::Ape => "ape",
            MarcRelator::App => "app",
            MarcRelator::Arc => "arc",
            MarcRelator::Arr => "arr",
            MarcRelator::Acp => "acp",
            MarcRelator::Adi => "adi",
            MarcRelator::Art => "art",
            MarcRelator::Ard => "ard",
            MarcRelator::Asg => "asg",
            MarcRelator::Asn => "asn",
            MarcRelator::Att => "att",
            MarcRelator::Auc => "auc",
            MarcRelator::Aut => "aut",
            MarcRelator::Aqt => "aqt",
            MarcRelator::Aft => "aft",
            MarcRelator::Aud => "aud",
            MarcRelator::Aui => "aui",
            MarcRelator::Ato => "ato",
            MarcRelator::Ant => "ant",
            MarcRelator::Bnd => "bnd",
            MarcRelator::Bdd => "bdd",
            MarcRelator::Blw => "blw",
            MarcRelator::Bkd => "bkd",
            MarcRelator::Bkp => "bkp",
            MarcRelator::Bjd => "bjd",
            MarcRelator::Bpd => "bpd",
            MarcRelator::Bsl => "bsl",
            MarcRelator::Brl => "brl",
            MarcRelator::Brd => "brd",
            MarcRelator::Cll => "cll",
            MarcRelator::Ctg => "ctg",
            MarcRelator::Cas => "cas",
            MarcRelator::Cns => "cns",
            MarcRelator::Chr => "chr",
            MarcRelator::Cng => "cng",
            MarcRelator::Cli => "cli",
            MarcRelator::Cor => "cor",
            MarcRelator::Col => "col",
            MarcRelator::Clt => "clt",
            MarcRelator::Clr => "clr",
            MarcRelator::Cmm => "cmm",
            MarcRelator::Cwt => "cwt",
            MarcRelator::Com => "com",
            MarcRelator::Cpl => "cpl",
            MarcRelator::Cpt => "cpt",
            MarcRelator::Cpe => "cpe",
            MarcRelator::Cmp => "cmp",
            MarcRelator::Cmt => "cmt",
            MarcRelator::Ccp => "ccp",
            MarcRelator::Cnd => "cnd",
            MarcRelator::Con => "con",
            MarcRelator::Csl => "csl",
            MarcRelator::Csp => "csp",
            MarcRelator::Cos => "cos",
            MarcRelator::Cot => "cot",
            MarcRelator::Coe => "coe",
            MarcRelator::Cts => "cts",
            MarcRelator::Ctt => "ctt",
            MarcRelator::Cte => "cte",
            MarcRelator::Ctr => "ctr",
            MarcRelator::Ctb => "ctb",
            MarcRelator::Cpc => "cpc",
            MarcRelator::Cph => "cph",
            MarcRelator::Crr => "crr",
            MarcRelator::Crp => "crp",
            MarcRelator::Cst => "cst",
            MarcRelator::Cou => "cou",
            MarcRelator::Crt => "crt",
            MarcRelator::Cov => "cov",
            MarcRelator::Cre => "cre",
            MarcRelator::Cur => "cur",
            MarcRelator::Dnc => "dnc",
            MarcRelator::Dtc => "dtc",
            MarcRelator::Dtm => "dtm",
            MarcRelator::Dte => "dte",
            MarcRelator::Dto => "dto",
            MarcRelator::Dfd => "dfd",
            MarcRelator::Dft => "dft",
            MarcRelator::Dfe => "dfe",
            MarcRelator::Dgg => "dgg",
            MarcRelator::Dgs => "dgs",
            MarcRelator::Dln => "dln",
            MarcRelator::Dpc => "dpc",
            MarcRelator::Dpt => "dpt",
            MarcRelator::Dsr => "dsr",
            MarcRelator::Drt => "drt",
            MarcRelator::Dis => "dis",
            MarcRelator::Dbp => "dbp",
            MarcRelator::Dst => "dst",
            MarcRelator::Dnr => "dnr",
            MarcRelator::Drm => "drm",
            MarcRelator::Dub => "dub",
            MarcRelator::Edt => "edt",
            MarcRelator::Edc => "edc",
            MarcRelator::Edm => "edm",
            MarcRelator::Elg => "elg",
            MarcRelator::Elt => "elt",
            MarcRelator::Enj => "enj",
            MarcRelator::Eng => "eng",
            MarcRelator::Egr => "egr",
            MarcRelator::Etr => "etr",
            MarcRelator::Evp => "evp",
            MarcRelator::Exp => "exp",
            MarcRelator::Fac => "fac",
            MarcRelator::Fld => "fld",
            MarcRelator::Fmd => "fmd",
            MarcRelator::Fds => "fds",
            MarcRelator::Flm => "flm",
            MarcRelator::Fmp => "fmp",
            MarcRelator::Fmk => "fmk",
            MarcRelator::Fpy => "fpy",
            MarcRelator::Frg => "frg",
            MarcRelator::Fmo => "fmo",
            MarcRelator::Fnd => "fnd",
            MarcRelator::Gis => "gis",
            MarcRelator::Hnr => "hnr",
            MarcRelator::Hst => "hst",
            MarcRelator::His => "his",
            MarcRelator::Ilu => "ilu",
            MarcRelator::Ill => "ill",
            MarcRelator::Ins => "ins",
            MarcRelator::Itr => "itr",
            MarcRelator::Ive => "ive",
            MarcRelator::Ivr => "ivr",
            MarcRelator::Inv => "inv",
            MarcRelator::Isb => "isb",
            MarcRelator::Jud => "jud",
            MarcRelator::Jug => "jug",
            MarcRelator::Lbr => "lbr",
            MarcRelator::Ldr => "ldr",
            MarcRelator::Lsa => "lsa",
            MarcRelator::Led => "led",
            MarcRelator::Len => "len",
            MarcRelator::Lil => "lil",
            MarcRelator::Lit => "lit",
            MarcRelator::Lie => "lie",
            MarcRelator::Lel => "lel",
            MarcRelator::Let => "let",
            MarcRelator::Lee => "lee",
            MarcRelator::Lbt => "lbt",
            MarcRelator::Lse => "lse",
            MarcRelator::Lso => "lso",
            MarcRelator::Lgd => "lgd",
            MarcRelator::Ltg => "ltg",
            MarcRelator::Lyr => "lyr",
            MarcRelator::Mfp => "mfp",
            MarcRelator::Mfr => "mfr",
            MarcRelator::Mrb => "mrb",
            MarcRelator::Mrk => "mrk",
            MarcRelator::Med => "med",
            MarcRelator::Mdc => "mdc",
            MarcRelator::Mte => "mte",
            MarcRelator::Mtk => "mtk",
            MarcRelator::Mod => "mod",
            MarcRelator::Mon => "mon",
            MarcRelator::Mcp => "mcp",
            MarcRelator::Msd => "msd",
            MarcRelator::Mus => "mus",
            MarcRelator::Nrt => "nrt",
            MarcRelator::Osp => "osp",
            MarcRelator::Opn => "opn",
            MarcRelator::Orm => "orm",
            MarcRelator::Org => "org",
            MarcRelator::Oth => "oth",
            MarcRelator::Own => "own",
            MarcRelator::Pan => "pan",
            MarcRelator::Ppm => "ppm",
            MarcRelator::Pta => "pta",
            MarcRelator::Pth => "pth",
            MarcRelator::Pat => "pat",
            MarcRelator::Prf => "prf",
            MarcRelator::Pma => "pma",
            MarcRelator::Pht => "pht",
            MarcRelator::Ptf => "ptf",
            MarcRelator::Ptt => "ptt",
            MarcRelator::Pte => "pte",
            MarcRelator::Plt => "plt",
            MarcRelator::Pra => "pra",
            MarcRelator::Pre => "pre",
            MarcRelator::Prt => "prt",
            MarcRelator::Pop => "pop",
            MarcRelator::Prm => "prm",
            MarcRelator::Prc => "prc",
            MarcRelator::Pro => "pro",
            MarcRelator::Prn => "prn",
            MarcRelator::Prs => "prs",
            MarcRelator::Pmn => "pmn",
            MarcRelator::Prd => "prd",
            MarcRelator::Prp => "prp",
            MarcRelator::Prg => "prg",
            MarcRelator::Pdr => "pdr",
            MarcRelator::Pfr => "pfr",
            MarcRelator::Prv => "prv",
            MarcRelator::Pup => "pup",
            MarcRelator::Pbl => "pbl",
            MarcRelator::Pbd => "pbd",
            MarcRelator::Ppt => "ppt",
            MarcRelator::Rdd => "rdd",
            MarcRelator::Rpc => "rpc",
            MarcRelator::Rce => "rce",
            MarcRelator::Rcd => "rcd",
            MarcRelator::Red => "red",
            MarcRelator::Ren => "ren",
            MarcRelator::Rpt => "rpt",
            MarcRelator::Rps => "rps",
            MarcRelator::Rth => "rth",
            MarcRelator::Rtm => "rtm",
            MarcRelator::Res => "res",
            MarcRelator::Rsp => "rsp",
            MarcRelator::Rst => "rst",
            MarcRelator::Rse => "rse",
            MarcRelator::Rpy => "rpy",
            MarcRelator::Rsg => "rsg",
            MarcRelator::Rsr => "rsr",
            MarcRelator::Rev => "rev",
            MarcRelator::Rbr => "rbr",
            MarcRelator::Sce => "sce",
            MarcRelator::Sad => "sad",
            MarcRelator::Aus => "aus",
            MarcRelator::Scr => "scr",
            MarcRelator::Scl => "scl",
            MarcRelator::Spy => "spy",
            MarcRelator::Sec => "sec",
            MarcRelator::Sll => "sll",
            MarcRelator::Std => "std",
            MarcRelator::Stg => "stg",
            MarcRelator::Sgn => "sgn",
            MarcRelator::Sng => "sng",
            MarcRelator::Sds => "sds",
            MarcRelator::Spk => "spk",
            MarcRelator::Spn => "spn",
            MarcRelator::Sgd => "sgd",
            MarcRelator::Stm => "stm",
            MarcRelator::Stn => "stn",
            MarcRelator::Str => "str",
            MarcRelator::Stl => "stl",
            MarcRelator::Sht => "sht",
            MarcRelator::Srv => "srv",
            MarcRelator::Tch => "tch",
            MarcRelator::Tcd => "tcd",
            MarcRelator::Tld => "tld",
            MarcRelator::Tlp => "tlp",
            MarcRelator::Ths => "ths",
            MarcRelator::Trc => "trc",
            MarcRelator::Trl => "trl",
            MarcRelator::Tyd => "tyd",
            MarcRelator::Tyg => "tyg",
            MarcRelator::Uvp => "uvp",
            MarcRelator::Vdg => "vdg",
            MarcRelator::Vac => "vac",
            MarcRelator::Wit => "wit",
            MarcRelator::Wde => "wde",
            MarcRelator::Wdc => "wdc",
            MarcRelator::Wam => "wam",
            MarcRelator::Wac => "wac",
            MarcRelator::Wal => "wal",
            MarcRelator::Wat => "wat",
            MarcRelator::Win => "win",
            MarcRelator::Wpr => "wpr",
            MarcRelator::Wst => "wst",
        }
    }
}

/// The relator that a name or a code stands for, among those from `abridger` to `auctioneer`.
pub open spec fn relator_named_from_abridger(s: Seq<char>) -> Option<MarcRelator> {
    if s == "abridger"@ || s == "abr"@ {
        Some(MarcRelator::Abr)
    } else if s == "actor"@ || s == "act"@ {
        Some(MarcRelator::Act)
    } else if s == "adapter"@ || s == "adp"@ {
        Some(MarcRelator::Adp)
    } else if s == "addressee"@ || s == "rcp"@ {
        Some(MarcRelator::Rcp)
    } else if s == "analyst"@ || s == "anl"@ {
        Some(MarcRelator::Anl)
    } else if s == "animator"@ || s == "anm"@ {
        Some(MarcRelator::Anm)
    } else if s == "annotator"@ || s == "ann"@ {
        Some(MarcRelator::Ann)
    } else if s == "appellant"@ || s == "apl"@ {
        Some(MarcRelator::Apl)
    } else if s == "appellee"@ || s == "ape"@ {
        Some(MarcRelator::Ape)
    } else if s == "applicant"@ || s == "app"@ {
        Some(MarcRelator::App)
    } else if s == "architect"@ || s == "arc"@ {
        Some(MarcRelator::Arc)
    } else if s == "arranger"@ || s == "arr"@ {
        Some(MarcRelator::Arr)
    } else if s == "art copyist"@ || s == "acp"@ {
        Some(MarcRelator::Acp)
    } else if s == "art director"@ || s == "adi"@ {
        Some(MarcRelator::Adi)
    } else if s == "artist"@ || s == "art"@ {
        Some(MarcRelator::Art)
    } else if s == "artistic director"@ || s == "ard"@ {
        Some(MarcRelator::Ard)
    } else if s == "assignee"@ || s == "asg"@ {
        Some(MarcRelator::Asg)
    } else if s == "associated name"@ || s == "asn"@ {
        Some(MarcRelator::Asn)
    } else if s == "attributed name"@ || s == "att"@ {
        Some(MarcRelator::Att)
    } else if s == "auctioneer"@ || s == "auc"@ {
        Some(MarcRelator::Auc)
    } else {
        None
    }
}

/// The relator that a name or a code stands for, among those from `author` to `caster`.
pub open spec fn relator_named_from_author(s: Seq<char>) -> Option<MarcRelator> {
    if s == "author"@ || s == "aut"@ {
        Some(MarcRelator::Aut)
    } else if s == "author in quotations or text abstracts"@ || s == "aqt"@ {
        Some(MarcRelator::Aqt)
    } else if s == "author of afterword, colophon, etc."@ || s == "aft"@ {
        Some(MarcRelator::Aft)
    } else if s == "author of dialog"@ || s == "aud"@ {
        Some(MarcRelator::Aud)
    } else if s == "author of introduction, etc."@ || s == "aui"@ {
        Some(MarcRelator::Aui)
    } else if s == "autographer"@ || s == "ato"@ {
        Some(MarcRelator::Ato)
    } else if s == "bibliographic antecedent"@ || s == "ant"@ {
        Some(MarcRelator::Ant)
    } else if s == "binder"@ || s == "bnd"@ {
        Some(MarcRelator::Bnd)
    } else if s == "binding designer"@ || s == "bdd"@ {
        Some(MarcRelator::Bdd)
    } else if s == "blurb writer"@ || s == "blw"@ {
        Some(MarcRelator::Blw)
    } else if s == "book designer"@ || s == "bkd"@ {
        Some(MarcRelator::Bkd)
    } else if s == "book producer"@ || s == "bkp"@ {
        Some(MarcRelator::Bkp)
    } else if s == "bookjacket designer"@ || s == "bjd"@ {
        Some(MarcRelator::Bjd)
    } else if s == "bookplate designer"@ || s == "bpd"@ {
        Some(MarcRelator::Bpd)
    } else if s == "bookseller"@ || s == "bsl"@ {
        Some(MarcRelator::Bsl)
    } else if s == "braille embosser"@ || s == "brl"@ {
        Some(MarcRelator::Brl)
    } else if s == "broadcaster"@ || s == "brd"@ {
        Some(MarcRelator::Brd)
    } else if s == "calligrapher"@ || s == "cll"@ {
        Some(MarcRelator::Cll)
    } else if s == "cartographer"@ || s == "ctg"@ {
        Some(MarcRelator::Ctg)
    } else if s == "caster"@ || s == "cas"@ {
        Some(MarcRelator::Cas)
    } else {
        None
    }
}

/// The relator that a name or a code stands for, among those from `censor` to `consultant`.
pub open spec fn relator_named_from_censor(s: Seq<char>) -> Option<MarcRelator> {
    if s == "censor"@ || s == "cns"@ {
        Some(MarcRelator::Cns)
    } else if s == "choreographer"@ || s == "chr"@ {
        Some(MarcRelator::Chr)
    } else if s == "cinematographer"@ || s == "cng"@ {
        Some(MarcRelator::Cng)
    } else if s == "client"@ || s == "cli"@ {
        Some(MarcRelator::Cli)
    } else if s == "collection registrar"@ || s == "cor"@ {
        Some(MarcRelator::Cor)
    } else if s == "collector"@ || s == "col"@ {
        Some(MarcRelator::Col)
    } else if s == "collotyper"@ || s == "clt"@ {
        Some(MarcRelator::Clt)
    } else if s == "colorist"@ || s == "clr"@ {
        Some(MarcRelator::Clr)
    } else if s == "commentator"@ || s == "cmm"@ {
        Some(MarcRelator::Cmm)
    } else if s == "commentator for written text"@ || s == "cwt"@ {
        Some(MarcRelator::Cwt)
    } else if s == "compiler"@ || s == "com"@ {
        Some(MarcRelator::Com)
    } else if s == "complainant"@ || s == "cpl"@ {
        Some(MarcRelator::Cpl)
    } else if s == "complainant-appellant"@ || s == "cpt"@ {
        Some(MarcRelator::Cpt)
    } else if s == "complainant-appellee"@ || s == "cpe"@ {
        Some(MarcRelator::Cpe)
    } else if s == "composer"@ || s == "cmp"@ {
        Some(MarcRelator::Cmp)
    } else if s == "compositor"@ || s == "cmt"@ {
        Some(MarcRelator::Cmt)
    } else if s == "conceptor"@ || s == "ccp"@ {
        Some(MarcRelator::Ccp)
    } else if s == "conductor"@ || s == "cnd"@ {
        Some(MarcRelator::Cnd)
    } else if s == "conservator"@ || s == "con"@ {
        Some(MarcRelator::Con)
    } else if s == "consultant"@ || s == "csl"@ {
        Some(MarcRelator::Csl)
    } else {
        None
    }
}

/// The relator that a name or a code stands for, among those from `consultant to a project` to `dancer`.
pub open spec fn relator_named_from_consultant_to_a_project(s: Seq<char>) -> Option<MarcRelator> {
    if s == "consultant to a project"@ || s == "csp"@ {
        Some(MarcRelator::Csp)
    } else if s == "contestant"@ || s == "cos"@ {
        Some(MarcRelator::Cos)
    } else if s == "contestant-appellant"@ || s == "cot"@ {
        Some(MarcRelator::Cot)
    } else if s == "contestant-appellee"@ || s == "coe"@ {
        Some(MarcRelator::Coe)
    } else if s == "contestee"@ || s == "cts"@ {
        Some(MarcRelator::Cts)
    } else if s == "contestee-appellant"@ || s == "ctt"@ {
        Some(MarcRelator::Ctt)
    } else if s == "contestee-appellee"@ || s == "cte"@ {
        Some(MarcRelator::Cte)
    } else if s == "contractor"@ || s == "ctr"@ {
        Some(MarcRelator::Ctr)
    } else if s == "contributor"@ || s == "ctb"@ {
        Some(MarcRelator::Ctb)
    } else if s == "copyright claimant"@ || s == "cpc"@ {
        Some(MarcRelator::Cpc)
    } else if s == "copyright holder"@ || s == "cph"@ {
        Some(MarcRelator::Cph)
    } else if s == "corrector"@ || s == "crr"@ {
        Some(MarcRelator::Crr)
    } else if s == "correspondent"@ || s == "crp"@ {
        Some(MarcRelator::Crp)
    } else if s == "costume designer"@ || s == "cst"@ {
        Some(MarcRelator::Cst)
    } else if s == "court governed"@ || s == "cou"@ {
        Some(MarcRelator::Cou)
    } else if s == "court reporter"@ || s == "crt"@ {
        Some(MarcRelator::Crt)
    } else if s == "cover designer"@ || s == "cov"@ {
        Some(MarcRelator::Cov)
    } else if s == "creator"@ || s == "cre"@ {
        Some(MarcRelator::Cre)
    } else if s == "curator"@ || s == "cur"@ {
        Some(MarcRelator::Cur)
    } else if s == "dancer"@ || s == "dnc"@ {
        Some(MarcRelator::Dnc)
    } else {
        None
    }
}

/// The relator that a name or a code stands for, among those from `data contributor` to `editor`.
pub open spec fn relator_named_from_data_contributor(s: Seq<char>) -> Option<MarcRelator> {
    if s == "data contributor"@ || s == "dtc"@ {
        Some(MarcRelator::Dtc)
    } else if s == "data manager"@ || s == "dtm"@ {
        Some(MarcRelator::Dtm)
    } else if s == "dedicatee"@ || s == "dte"@ {
        Some(MarcRelator::Dte)
    } else if s == "dedicator"@ || s == "dto"@ {
        Some(MarcRelator::Dto)
    } else if s == "defendant"@ || s == "dfd"@ {
        Some(MarcRelator::Dfd)
    } else if s == "defendant-appellant"@ || s == "dft"@ {
        Some(MarcRelator::Dft)
    } else if s == "defendant-appellee"@ || s == "dfe"@ {
        Some(MarcRelator::Dfe)
    } else if s == "degree granting institution"@ || s == "dgg"@ {
        Some(MarcRelator::Dgg)
    } else if s == "delineator"@ || s == "dln"@ {
        Some(MarcRelator::Dln)
    } else if s == "depicted"@ || s == "dpc"@ {
        Some(MarcRelator::Dpc)
    } else if s == "depositor"@ || s == "dpt"@ {
        Some(MarcRelator::Dpt)
    } else if s == "designer"@ || s == "dsr"@ {
        Some(MarcRelator::Dsr)
    } else if s == "director"@ || s == "drt"@ {
        Some(MarcRelator::Drt)
    } else if s == "dissertant"@ || s == "dis"@ {
        Some(MarcRelator::Dis)
    } else if s == "distribution place"@ || s == "dbp"@ {
        Some(MarcRelator::Dbp)
    } else if s == "distributor"@ || s == "dst"@ {
        Some(MarcRelator::Dst)
    } else if s == "donor"@ || s == "dnr"@ {
        Some(MarcRelator::Dnr)
    } else if s == "draftsman"@ || s == "drm"@ {
        Some(MarcRelator::Drm)
    } else if s == "dubious author"@ || s == "dub"@ {
        Some(MarcRelator::Dub)
    } else if s == "editor"@ || s == "edt"@ {
        Some(MarcRelator::Edt)
    } else {
        None
    }
}

/// The relator that a name or a code stands for, among those from `editor of compilation` to `former owner`.
pub open spec fn relator_named_from_editor_of_compilation(s: Seq<char>) -> Option<MarcRelator> {
    if s == "editor of compilation"@ || s == "edc"@ {
        Some(MarcRelator::Edc)
    } else if s == "editor of moving image work"@ || s == "edm"@ {
        Some(MarcRelator::Edm)
    } else if s == "electrician"@ || s == "elg"@ {
        Some(MarcRelator::Elg)
    } else if s == "electrotyper"@ || s == "elt"@ {
        Some(MarcRelator::Elt)
    } else if s == "enacting jurisdiction"@ || s == "enj"@ {
        Some(MarcRelator::Enj)
    } else if s == "engineer"@ || s == "eng"@ {
        Some(MarcRelator::Eng)
    } else if s == "engraver"@ || s == "egr"@ {
        Some(MarcRelator::Egr)
    } else if s == "etcher"@ || s == "etr"@ {
        Some(MarcRelator::Etr)
    } else if s == "event place"@ || s == "evp"@ {
        Some(MarcRelator::Evp)
    } else if s == "expert"@ || s == "exp"@ {
        Some(MarcRelator::Exp)
    } else if s == "facsimilist"@ || s == "fac"@ {
        Some(MarcRelator::Fac)
    } else if s == "field director"@ || s == "fld"@ {
        Some(MarcRelator::Fld)
    } else if s == "film director"@ || s == "fmd"@ {
        Some(MarcRelator::Fmd)
    } else if s == "film distributor"@ || s == "fds"@ {
        Some(MarcRelator::Fds)
    } else if s == "film editor"@ || s == "flm"@ {
        Some(MarcRelator::Flm)
    } else if s == "film producer"@ || s == "fmp"@ {
        Some(MarcRelator::Fmp)
    } else if s == "filmmaker"@ || s == "fmk"@ {
        Some(MarcRelator::Fmk)
    } else if s == "first party"@ || s == "fpy"@ {
        Some(MarcRelator::Fpy)
    } else if s == "forger"@ || s == "frg"@ {
        Some(MarcRelator::Frg)
    } else if s == "former owner"@ || s == "fmo"@ {
        Some(MarcRelator::Fmo)
    } else {
        None
    }
}

/// The relator that a name or a code stands for, among those from `funder` to `lender`.
pub open spec fn relator_named_from_funder(s: Seq<char>) -> Option<MarcRelator> {
    if s == "funder"@ || s == "fnd"@ {
        Some(MarcRelator::Fnd)
    } else if s == "geographic information specialist"@ || s == "gis"@ {
        Some(MarcRelator::Gis)
    } else if s == "honoree"@ || s == "hnr"@ {
        Some(MarcRelator::Hnr)
    } else if s == "host"@ || s == "hst"@ {
        Some(MarcRelator::Hst)
    } else if s == "host institution"@ || s == "his"@ {
        Some(MarcRelator::His)
    } else if s == "illuminator"@ || s == "ilu"@ {
        Some(MarcRelator::Ilu)
    } else if s == "illustrator"@ || s == "ill"@ {
        Some(MarcRelator::Ill)
    } else if s == "inscriber"@ || s == "ins"@ {
        Some(MarcRelator::Ins)
    } else if s == "instrumentalist"@ || s == "itr"@ {
        Some(MarcRelator::Itr)
    } else if s == "interviewee"@ || s == "ive"@ {
        Some(MarcRelator::Ive)
    } else if s == "interviewer"@ || s == "ivr"@ {
        Some(MarcRelator::Ivr)
    } else if s == "inventor"@ || s == "inv"@ {
        Some(MarcRelator::Inv)
    } else if s == "issuing body"@ || s == "isb"@ {
        Some(MarcRelator::Isb)
    } else if s == "judge"@ || s == "jud"@ {
        Some(MarcRelator::Jud)
    } else if s == "jurisdiction governed"@ || s == "jug"@ {
        Some(MarcRelator::Jug)
    } else if s == "laboratory"@ || s == "lbr"@ {
        Some(MarcRelator::Lbr)
    } else if s == "laboratory director"@ || s == "ldr"@ {
        Some(MarcRelator::Ldr)
    } else if s == "landscape architect"@ || s == "lsa"@ {
        Some(MarcRelator::Lsa)
    } else if s == "lead"@ || s == "led"@ {
        Some(MarcRelator::Led)
    } else if s == "lender"@ || s == "len"@ {
        Some(MarcRelator::Len)
    } else {
        None
    }
}

/// The relator that a name or a code stands for, among those from `libelant` to `monitor`.
pub open spec fn relator_named_from_libelant(s: Seq<char>) -> Option<MarcRelator> {
    if s == "libelant"@ || s == "lil"@ {
        Some(MarcRelator::Lil)
    } else if s == "libelant-appellant"@ || s == "lit"@ {
        Some(MarcRelator::Lit)
    } else if s == "libelant-appellee"@ || s == "lie"@ {
        Some(MarcRelator::Lie)
    } else if s == "libelee"@ || s == "lel"@ {
        Some(MarcRelator::Lel)
    } else if s == "libelee-appellant"@ || s == "let"@ {
        Some(MarcRelator::Let)
    } else if s == "libelee-appellee"@ || s == "lee"@ {
        Some(MarcRelator::Lee)
    } else if s == "librettist"@ || s == "lbt"@ {
        Some(MarcRelator::Lbt)
    } else if s == "licensee"@ || s == "lse"@ {
        Some(MarcRelator::Lse)
    } else if s == "licensor"@ || s == "lso"@ {
        Some(MarcRelator::Lso)
    } else if s == "lighting designer"@ || s == "lgd"@ {
        Some(MarcRelator::Lgd)
    } else if s == "lithographer"@ || s == "ltg"@ {
        Some(MarcRelator::Ltg)
    } else if s == "lyricist"@ || s == "lyr"@ {
        Some(MarcRelator::Lyr)
    } else if s == "manufacture place"@ || s == "mfp"@ {
        Some(MarcRelator::Mfp)
    } else if s == "manufacturer"@ || s == "mfr"@ {
        Some(MarcRelator::Mfr)
    } else if s == "marbler"@ || s == "mrb"@ {
        Some(MarcRelator::Mrb)
    } else if s == "markup editor"@ || s == "mrk"@ {
        Some(MarcRelator::Mrk)
    } else if s == "metadata contact"@ || s == "mdc"@ {
        Some(MarcRelator::Mdc)
    } else if s == "metal-engraver"@ || s == "mte"@ {
        Some(MarcRelator::Mte)
    } else if s == "moderator"@ || s == "mod"@ {
        Some(MarcRelator::Mod)
    } else if s == "monitor"@ || s == "mon"@ {
        Some(MarcRelator::Mon)
    } else {
        None
    }
}

/// The relator that a name or a code stands for, among those from `music copyist` to `plaintiff-appellant`.
pub open spec fn relator_named_from_music_copyist(s: Seq<char>) -> Option<MarcRelator> {
    if s == "music copyist"@ || s == "mcp"@ {
        Some(MarcRelator::Mcp)
    } else if s == "musical director"@ || s == "msd"@ {
        Some(MarcRelator::Msd)
    } else if s == "musician"@ || s == "mus"@ {
        Some(MarcRelator::Mus)
    } else if s == "narrator"@ || s == "nrt"@ {
        Some(MarcRelator::Nrt)
    } else if s == "onscreen presenter"@ || s == "osp"@ {
        Some(MarcRelator::Osp)
    } else if s == "opponent"@ || s == "opn"@ {
        Some(MarcRelator::Opn)
    } else if s == "organizer of meeting"@ || s == "orm"@ {
        Some(MarcRelator::Orm)
    } else if s == "originator"@ || s == "org"@ {
        Some(MarcRelator::Org)
    } else if s == "other"@ || s == "oth"@ {
        Some(MarcRelator::Oth)
    } else if s == "owner"@ || s == "own"@ {
        Some(MarcRelator::Own)
    } else if s == "panelist"@ || s == "pan"@ {
        Some(MarcRelator::Pan)
    } else if s == "papermaker"@ || s == "ppm"@ {
        Some(MarcRelator::Ppm)
    } else if s == "patent applicant"@ || s == "pta"@ {
        Some(MarcRelator::Pta)
    } else if s == "patent holder"@ || s == "pth"@ {
        Some(MarcRelator::Pth)
    } else if s == "patron"@ || s == "pat"@ {
        Some(MarcRelator::Pat)
    } else if s == "performer"@ || s == "prf"@ {
        Some(MarcRelator::Prf)
    } else if s == "permitting agency"@ || s == "pma"@ {
        Some(MarcRelator::Pma)
    } else if s == "photographer"@ || s == "pht"@ {
        Some(MarcRelator::Pht)
    } else if s == "plaintiff"@ || s == "ptf"@ {
        Some(MarcRelator::Ptf)
    } else if s == "plaintiff-appellant"@ || s == "ptt"@ {
        Some(MarcRelator::Ptt)
    } else {
        None
    }
}

/// The relator that a name or a code stands for, among those from `plaintiff-appellee` to `publisher`.
pub open spec fn relator_named_from_plaintiff_appellee(s: Seq<char>) -> Option<MarcRelator> {
    if s == "plaintiff-appellee"@ || s == "pte"@ {
        Some(MarcRelator::Pte)
    } else if s == "platemaker"@ || s == "plt"@ {
        Some(MarcRelator::Plt)
    } else if s == "praeses"@ || s == "pra"@ {
        Some(MarcRelator::Pra)
    } else if s == "presenter"@ || s == "pre"@ {
        Some(MarcRelator::Pre)
    } else if s == "printer"@ || s == "prt"@ {
        Some(MarcRelator::Prt)
    } else if s == "printer of plates"@ || s == "pop"@ {
        Some(MarcRelator::Pop)
    } else if s == "printmaker"@ || s == "prm"@ {
        Some(MarcRelator::Prm)
    } else if s == "process contact"@ || s == "prc"@ {
        Some(MarcRelator::Prc)
    } else if s == "producer"@ || s == "pro"@ {
        Some(MarcRelator::Pro)
    } else if s == "production company"@ || s == "prn"@ {
        Some(MarcRelator::Prn)
    } else if s == "production designer"@ || s == "prs"@ {
        Some(MarcRelator::Prs)
    } else if s == "production manager"@ || s == "pmn"@ {
        Some(MarcRelator::Pmn)
    } else if s == "production personnel"@ || s == "prd"@ {
        Some(MarcRelator::Prd)
    } else if s == "production place"@ || s == "prp"@ {
        Some(MarcRelator::Prp)
    } else if s == "programmer"@ || s == "prg"@ {
        Some(MarcRelator::Prg)
    } else if s == "project director"@ || s == "pdr"@ {
        Some(MarcRelator::Pdr)
    } else if s == "proofreader"@ || s == "pfr"@ {
        Some(MarcRelator::Pfr)
    } else if s == "provider"@ || s == "prv"@ {
        Some(MarcRelator::Prv)
    } else if s == "publication place"@ || s == "pup"@ {
        Some(MarcRelator::Pup)
    } else if s == "publisher"@ || s == "pbl"@ {
        Some(MarcRelator::Pbl)
    } else {
        None
    }
}

/// The relator that a name or a code stands for, among those from `publishing director` to `rev`.
pub open spec fn relator_named_from_publishing_director(s: Seq<char>) -> Option<MarcRelator> {
    if s == "publishing director"@ || s == "pbd"@ {
        Some(MarcRelator::Pbd)
    } else if s == "puppeteer"@ || s == "ppt"@ {
        Some(MarcRelator::Ppt)
    } else if s == "radio director"@ || s == "rdd"@ {
        Some(MarcRelator::Rdd)
    } else if s == "radio producer"@ || s == "rpc"@ {
        Some(MarcRelator::Rpc)
    } else if s == "recording engineer"@ || s == "rce"@ {
        Some(MarcRelator::Rce)
    } else if s == "recordist"@ || s == "rcd"@ {
        Some(MarcRelator::Rcd)
    } else if s == "redaktor"@ || s == "red"@ {
        Some(MarcRelator::Red)
    } else if s == "renderer"@ || s == "ren"@ {
        Some(MarcRelator::Ren)
    } else if s == "reporter"@ || s == "rpt"@ {
        Some(MarcRelator::Rpt)
    } else if s == "repository"@ || s == "rps"@ {
        Some(MarcRelator::Rps)
    } else if s == "research team head"@ || s == "rth"@ {
        Some(MarcRelator::Rth)
    } else if s == "research team member"@ || s == "rtm"@ {
        Some(MarcRelator::Rtm)
    } else if s == "researcher"@ || s == "res"@ {
        Some(MarcRelator::Res)
    } else if s == "respondent"@ || s == "rsp"@ {
        Some(MarcRelator::Rsp)
    } else if s == "respondent-appellant"@ || s == "rst"@ {
        Some(MarcRelator::Rst)
    } else if s == "respondent-appellee"@ || s == "rse"@ {
        Some(MarcRelator::Rse)
    } else if s == "responsible party"@ || s == "rpy"@ {
        Some(MarcRelator::Rpy)
    } else if s == "restager"@ || s == "rsg"@ {
        Some(MarcRelator::Rsg)
    } else if s == "restorationist"@ || s == "rsr"@ {
        Some(MarcRelator::Rsr)
    } else if s == "rev"@ {
        Some(MarcRelator::Rev)
    } else {
        None
    }
}

/// The relator that a name or a code stands for, among those from `rubricator` to `stereotyper`.
pub open spec fn relator_named_from_rubricator(s: Seq<char>) -> Option<MarcRelator> {
    if s == "rubricator"@ || s == "rbr"@ {
        Some(MarcRelator::Rbr)
    } else if s == "scenarist"@ || s == "sce"@ {
        Some(MarcRelator::Sce)
    } else if s == "scientific advisor"@ || s == "sad"@ {
        Some(MarcRelator::Sad)
    } else if s == "screenwriter"@ || s == "aus"@ {
        Some(MarcRelator::Aus)
    } else if s == "scribe"@ || s == "scr"@ {
        Some(MarcRelator::Scr)
    } else if s == "sculptor"@ || s == "scl"@ {
        Some(MarcRelator::Scl)
    } else if s == "second party"@ || s == "spy"@ {
        Some(MarcRelator::Spy)
    } else if s == "secretary"@ || s == "sec"@ {
        Some(MarcRelator::Sec)
    } else if s == "seller"@ || s == "sll"@ {
        Some(MarcRelator::Sll)
    } else if s == "set designer"@ || s == "std"@ {
        Some(MarcRelator::Std)
    } else if s == "setting"@ || s == "stg"@ {
        Some(MarcRelator::Stg)
    } else if s == "signer"@ || s == "sgn"@ {
        Some(MarcRelator::Sgn)
    } else if s == "singer"@ || s == "sng"@ {
        Some(MarcRelator::Sng)
    } else if s == "sound designer"@ || s == "sds"@ {
        Some(MarcRelator::Sds)
    } else if s == "speaker"@ || s == "spk"@ {
        Some(MarcRelator::Spk)
    } else if s == "sponsor"@ || s == "spn"@ {
        Some(MarcRelator::Spn)
    } else if s == "stage director"@ || s == "sgd"@ {
        Some(MarcRelator::Sgd)
    } else if s == "stage manager"@ || s == "stm"@ {
        Some(MarcRelator::Stm)
    } else if s == "standards body"@ || s == "stn"@ {
        Some(MarcRelator::Stn)
    } else if s == "stereotyper"@ || s == "str"@ {
        Some(MarcRelator::Str)
    } else {
        None
    }
}

/// The relator that a name or a code stands for, among those from `storyteller` to `writer of added lyrics`.
pub open spec fn relator_named_from_storyteller(s: Seq<char>) -> Option<MarcRelator> {
    if s == "storyteller"@ || s == "stl"@ {
        Some(MarcRelator::Stl)
    } else if s == "supporting host"@ || s == "sht"@ {
        Some(MarcRelator::Sht)
    } else if s == "surveyor"@ || s == "srv"@ {
        Some(MarcRelator::Srv)
    } else if s == "teacher"@ || s == "tch"@ {
        Some(MarcRelator::Tch)
    } else if s == "technical director"@ || s == "tcd"@ {
        Some(MarcRelator::Tcd)
    } else if s == "television director"@ || s == "tld"@ {
        Some(MarcRelator::Tld)
    } else if s == "television producer"@ || s == "tlp"@ {
        Some(MarcRelator::Tlp)
    } else if s == "thesis advisor"@ || s == "ths"@ {
        Some(MarcRelator::Ths)
    } else if s == "transcriber"@ || s == "trc"@ {
        Some(MarcRelator::Trc)
    } else if s == "translator"@ || s == "trl"@ {
        Some(MarcRelator::Trl)
    } else if s == "type designer"@ || s == "tyd"@ {
        Some(MarcRelator::Tyd)
    } else if s == "typographer"@ || s == "tyg"@ {
        Some(MarcRelator::Tyg)
    } else if s == "university place"@ || s == "uvp"@ {
        Some(MarcRelator::Uvp)
    } else if s == "videographer"@ || s == "vdg"@ {
        Some(MarcRelator::Vdg)
    } else if s == "witness"@ || s == "wit"@ {
        Some(MarcRelator::Wit)
    } else if s == "wood engraver"@ || s == "wde"@ {
        Some(MarcRelator::Wde)
    } else if s == "woodcutter"@ || s == "wdc"@ {
        Some(MarcRelator::Wdc)
    } else if s == "writer of accompanying material"@ || s == "wam"@ {
        Some(MarcRelator::Wam)
    } else if s == "writer of added commentary"@ || s == "wac"@ {
        Some(MarcRelator::Wac)
    } else if s == "writer of added lyrics"@ || s == "wal"@ {
        Some(MarcRelator::Wal)
    } else {
        None
    }
}

/// The relator that a name or a code stands for, among those from `writer of added text` to `writer of added text`.
pub open spec fn relator_named_from_writer_of_added_text(s: Seq<char>) -> Option<MarcRelator> {
    if s == "writer of added text"@ || s == "wat"@ {
        Some(MarcRelator::Wat)
    } else {
        None
    }
}

/// The relator that a name or a code stands for.
pub open spec fn relator_named(s: Seq<char>) -> Option<MarcRelator> {
    if relator_named_from_abridger(s) is Some {
        relator_named_from_abridger(s)
    } else if relator_named_from_author(s) is Some {
        relator_named_from_author(s)
    } else if relator_named_from_censor(s) is Some {
        relator_named_from_censor(s)
    } else if relator_named_from_consultant_to_a_project(s) is Some {
        relator_named_from_consultant_to_a_project(s)
    } else if relator_named_from_data_contributor(s) is Some {
        relator_named_from_data_contributor(s)
    } else if relator_named_from_editor_of_compilation(s) is Some {
        relator_named_from_editor_of_compilation(s)
    } else if relator_named_from_funder(s) is Some {
        relator_named_from_funder(s)
    } else if relator_named_from_libelant(s) is Some {
        relator_named_from_libelant(s)
    } else if relator_named_from_music_copyist(s) is Some {
        relator_named_from_music_copyist(s)
    } else if relator_named_from_plaintiff_appellee(s) is Some {
        relator_named_from_plaintiff_appellee(s)
    } else if relator_named_from_publishing_director(s) is Some {
        relator_named_from_publishing_director(s)
    } else if relator_named_from_rubricator(s) is Some {
        relator_named_from_rubricator(s)
    } else if relator_named_from_storyteller(s) is Some {
        relator_named_from_storyteller(s)
    } else {
        relator_named_from_writer_of_added_text(s)
    }
}

fn read_relator_named_from_abridger(s: &str) -> (r: Option<MarcRelator>)
    ensures
        r == relator_named_from_abridger(s@),
{
    if str_eq(s, "abridger") || str_eq(s, "abr") {
        Some(MarcRelator::Abr)
    } else if str_eq(s, "actor") || str_eq(s, "act") {
        Some(MarcRelator::Act)
    } else if str_eq(s, "adapter") || str_eq(s, "adp") {
        Some(MarcRelator::Adp)
    } else if str_eq(s, "addressee") || str_eq(s, "rcp") {
        Some(MarcRelator::Rcp)
    } else if str_eq(s, "analyst") || str_eq(s, "anl") {
        Some(MarcRelator::Anl)
    } else if str_eq(s, "animator") || str_eq(s, "anm") {
        Some(MarcRelator::Anm)
    } else if str_eq(s, "annotator") || str_eq(s, "ann") {
        Some(MarcRelator::Ann)
    } else if str_eq(s, "appellant") || str_eq(s, "apl") {
        Some(MarcRelator::Apl)
    } else if str_eq(s, "appellee") || str_eq(s, "ape") {
        Some(MarcRelator::Ape)
    } else if str_eq(s, "applicant") || str_eq(s, "app") {
        Some(MarcRelator::App)
    } else if str_eq(s, "architect") || str_eq(s, "arc") {
        Some(MarcRelator::Arc)
    } else if str_eq(s, "arranger") || str_eq(s, "arr") {
        Some(MarcRelator::Arr)
    } else if str_eq(s, "art copyist") || str_eq(s, "acp") {
        Some(MarcRelator::Acp)
    } else if str_eq(s, "art director") || str_eq(s, "adi") {
        Some(MarcRelator::Adi)
    } else if str_eq(s, "artist") || str_eq(s, "art") {
        Some(MarcRelator::Art)
    } else if str_eq(s, "artistic director") || str_eq(s, "ard") {
        Some(MarcRelator::Ard)
    } else if str_eq(s, "assignee") || str_eq(s, "asg") {
        Some(MarcRelator::Asg)
    } else if str_eq(s, "associated name") || str_eq(s, "asn") {
        Some(MarcRelator::Asn)
    } else if str_eq(s, "attributed name") || str_eq(s, "att") {
        Some(MarcRelator::Att)
    } else if str_eq(s, "auctioneer") || str_eq(s, "auc") {
        Some(MarcRelator::Auc)
    } else {
        None
    }
}

fn read_relator_named_from_author(s: &str) -> (r: Option<MarcRelator>)
    ensures
        r == relator_named_from_author(s@),
{
    if str_eq(s, "author") || str_eq(s, "aut") {
        Some(MarcRelator::Aut)
    } else if str_eq(s, "author in quotations or text abstracts") || str_eq(s, "aqt") {
        Some(MarcRelator::Aqt)
    } else if str_eq(s, "author of afterword, colophon, etc.") || str_eq(s, "aft") {
        Some(MarcRelator::Aft)
    } else if str_eq(s, "author of dialog") || str_eq(s, "aud") {
        Some(MarcRelator::Aud)
    } else if str_eq(s, "author of introduction, etc.") || str_eq(s, "aui") {
        Some(MarcRelator::Aui)
    } else if str_eq(s, "autographer") || str_eq(s, "ato") {
        Some(MarcRelator::Ato)
    } else if str_eq(s, "bibliographic antecedent") || str_eq(s, "ant") {
        Some(MarcRelator::Ant)
    } else if str_eq(s, "binder") || str_eq(s, "bnd") {
        Some(MarcRelator::Bnd)
    } else if str_eq(s, "binding designer") || str_eq(s, "bdd") {
        Some(MarcRelator::Bdd)
    } else if str_eq(s, "blurb writer") || str_eq(s, "blw") {
        Some(MarcRelator::Blw)
    } else if str_eq(s, "book designer") || str_eq(s, "bkd") {
        Some(MarcRelator::Bkd)
    } else if str_eq(s, "book producer") || str_eq(s, "bkp") {
        Some(MarcRelator::Bkp)
    } else if str_eq(s, "bookjacket designer") || str_eq(s, "bjd") {
        Some(MarcRelator::Bjd)
    } else if str_eq(s, "bookplate designer") || str_eq(s, "bpd") {
        Some(MarcRelator::Bpd)
    } else if str_eq(s, "bookseller") || str_eq(s, "bsl") {
        Some(MarcRelator::Bsl)
    } else if str_eq(s, "braille embosser") || str_eq(s, "brl") {
        Some(MarcRelator::Brl)
    } else if str_eq(s, "broadcaster") || str_eq(s, "brd") {
        Some(MarcRelator::Brd)
    } else if str_eq(s, "calligrapher") || str_eq(s, "cll") {
        Some(MarcRelator::Cll)
    } else if str_eq(s, "cartographer") || str_eq(s, "ctg") {
        Some(MarcRelator::Ctg)
    } else if str_eq(s, "caster") || str_eq(s, "cas") {
        Some(MarcRelator::Cas)
    } else {
        None
    }
}

fn read_relator_named_from_censor(s: &str) -> (r: Option<MarcRelator>)
    ensures
        r == relator_named_from_censor(s@),
{
    if str_eq(s, "censor") || str_eq(s, "cns") {
        Some(MarcRelator::Cns)
    } else if str_eq(s, "choreographer") || str_eq(s, "chr") {
        Some(MarcRelator::Chr)
    } else if str_eq(s, "cinematographer") || str_eq(s, "cng") {
        Some(MarcRelator::Cng)
    } else if str_eq(s, "client") || str_eq(s, "cli") {
        Some(MarcRelator::Cli)
    } else if str_eq(s, "collection registrar") || str_eq(s, "cor") {
        Some(MarcRelator::Cor)
    } else if str_eq(s, "collector") || str_eq(s, "col") {
        Some(MarcRelator::Col)
    } else if str_eq(s, "collotyper") || str_eq(s, "clt") {
        Some(MarcRelator::Clt)
    } else if str_eq(s, "colorist") || str_eq(s, "clr") {
        Some(MarcRelator::Clr)
    } else if str_eq(s, "commentator") || str_eq(s, "cmm") {
        Some(MarcRelator::Cmm)
    } else if str_eq(s, "commentator for written text") || str_eq(s, "cwt") {
        Some(MarcRelator::Cwt)
    } else if str_eq(s, "compiler") || str_eq(s, "com") {
        Some(MarcRelator::Com)
    } else if str_eq(s, "complainant") || str_eq(s, "cpl") {
        Some(MarcRelator::Cpl)
    } else if str_eq(s, "complainant-appellant") || str_eq(s, "cpt") {
        Some(MarcRelator::Cpt)
    } else if str_eq(s, "complainant-appellee") || str_eq(s, "cpe") {
        Some(MarcRelator::Cpe)
    } else if str_eq(s, "composer") || str_eq(s, "cmp") {
        Some(MarcRelator::Cmp)
    } else if str_eq(s, "compositor") || str_eq(s, "cmt") {
        Some(MarcRelator::Cmt)
    } else if str_eq(s, "conceptor") || str_eq(s, "ccp") {
        Some(MarcRelator::Ccp)
    } else if str_eq(s, "conductor") || str_eq(s, "cnd") {
        Some(MarcRelator::Cnd)
    } else if str_eq(s, "conservator") || str_eq(s, "con") {
        Some(MarcRelator::Con)
    } else if str_eq(s, "consultant") || str_eq(s, "csl") {
        Some(MarcRelator::Csl)
    } else {
        None
    }
}

fn read_relator_named_from_consultant_to_a_project(s: &str) -> (r: Option<MarcRelator>)
    ensures
        r == relator_named_from_consultant_to_a_project(s@),
{
    if str_eq(s, "consultant to a project") || str_eq(s, "csp") {
        Some(MarcRelator::Csp)
    } else if str_eq(s, "contestant") || str_eq(s, "cos") {
        Some(MarcRelator::Cos)
    } else if str_eq(s, "contestant-appellant") || str_eq(s, "cot") {
        Some(MarcRelator::Cot)
    } else if str_eq(s, "contestant-appellee") || str_eq(s, "coe") {
        Some(MarcRelator::Coe)
    } else if str_eq(s, "contestee") || str_eq(s, "cts") {
        Some(MarcRelator::Cts)
    } else if str_eq(s, "contestee-appellant") || str_eq(s, "ctt") {
        Some(MarcRelator::Ctt)
    } else if str_eq(s, "contestee-appellee") || str_eq(s, "cte") {
        Some(MarcRelator::Cte)
    } else if str_eq(s, "contractor") || str_eq(s, "ctr") {
        Some(MarcRelator::Ctr)
    } else if str_eq(s, "contributor") || str_eq(s, "ctb") {
        Some(MarcRelator::Ctb)
    } else if str_eq(s, "copyright claimant") || str_eq(s, "cpc") {
        Some(MarcRelator::Cpc)
    } else if str_eq(s, "copyright holder") || str_eq(s, "cph") {
        Some(MarcRelator::Cph)
    } else if str_eq(s, "corrector") || str_eq(s, "crr") {
        Some(MarcRelator::Crr)
    } else if str_eq(s, "correspondent") || str_eq(s, "crp") {
        Some(MarcRelator::Crp)
    } else if str_eq(s, "costume designer") || str_eq(s, "cst") {
        Some(MarcRelator::Cst)
    } else if str_eq(s, "court governed") || str_eq(s, "cou") {
        Some(MarcRelator::Cou)
    } else if str_eq(s, "court reporter") || str_eq(s, "crt") {
        Some(MarcRelator::Crt)
    } else if str_eq(s, "cover designer") || str_eq(s, "cov") {
        Some(MarcRelator::Cov)
    } else if str_eq(s, "creator") || str_eq(s, "cre") {
        Some(MarcRelator::Cre)
    } else if str_eq(s, "curator") || str_eq(s, "cur") {
        Some(MarcRelator::Cur)
    } else if str_eq(s, "dancer") || str_eq(s, "dnc") {
        Some(MarcRelator::Dnc)
    } else {
        None
    }
}

fn read_relator_named_from_data_contributor(s: &str) -> (r: Option<MarcRelator>)
    ensures
        r == relator_named_from_data_contributor(s@),
{
    if str_eq(s, "data contributor") || str_eq(s, "dtc") {
        Some(MarcRelator::Dtc)
    } else if str_eq(s, "data manager") || str_eq(s, "dtm") {
        Some(MarcRelator::Dtm)
    } else if str_eq(s, "dedicatee") || str_eq(s, "dte") {
        Some(MarcRelator::Dte)
    } else if str_eq(s, "dedicator") || str_eq(s, "dto") {
        Some(MarcRelator::Dto)
    } else if str_eq(s, "defendant") || str_eq(s, "dfd") {
        Some(MarcRelator::Dfd)
    } else if str_eq(s, "defendant-appellant") || str_eq(s, "dft") {
        Some(MarcRelator::Dft)
    } else if str_eq(s, "defendant-appellee") || str_eq(s, "dfe") {
        Some(MarcRelator::Dfe)
    } else if str_eq(s, "degree granting institution") || str_eq(s, "dgg") {
        Some(MarcRelator::Dgg)
    } else if str_eq(s, "delineator") || str_eq(s, "dln") {
        Some(MarcRelator::Dln)
    } else if str_eq(s, "depicted") || str_eq(s, "dpc") {
        Some(MarcRelator::Dpc)
    } else if str_eq(s, "depositor") || str_eq(s, "dpt") {
        Some(MarcRelator::Dpt)
    } else if str_eq(s, "designer") || str_eq(s, "dsr") {
        Some(MarcRelator::Dsr)
    } else if str_eq(s, "director") || str_eq(s, "drt") {
        Some(MarcRelator::Drt)
    } else if str_eq(s, "dissertant") || str_eq(s, "dis") {
        Some(MarcRelator::Dis)
    } else if str_eq(s, "distribution place") || str_eq(s, "dbp") {
        Some(MarcRelator::Dbp)
    } else if str_eq(s, "distributor") || str_eq(s, "dst") {
        Some(MarcRelator::Dst)
    } else if str_eq(s, "donor") || str_eq(s, "dnr") {
        Some(MarcRelator::Dnr)
    } else if str_eq(s, "draftsman") || str_eq(s, "drm") {
        Some(MarcRelator::Drm)
    } else if str_eq(s, "dubious author") || str_eq(s, "dub") {
        Some(MarcRelator::Dub)
    } else if str_eq(s, "editor") || str_eq(s, "edt") {
        Some(MarcRelator::Edt)
    } else {
        None
    }
}

fn read_relator_named_from_editor_of_compilation(s: &str) -> (r: Option<MarcRelator>)
    ensures
        r == relator_named_from_editor_of_compilation(s@),
{
    if str_eq(s, "editor of compilation") || str_eq(s, "edc") {
        Some(MarcRelator::Edc)
    } else if str_eq(s, "editor of moving image work") || str_eq(s, "edm") {
        Some(MarcRelator::Edm)
    } else if str_eq(s, "electrician") || str_eq(s, "elg") {
        Some(MarcRelator::Elg)
    } else if str_eq(s, "electrotyper") || str_eq(s, "elt") {
        Some(MarcRelator::Elt)
    } else if str_eq(s, "enacting jurisdiction") || str_eq(s, "enj") {
        Some(MarcRelator::Enj)
    } else if str_eq(s, "engineer") || str_eq(s, "eng") {
        Some(MarcRelator::Eng)
    } else if str_eq(s, "engraver") || str_eq(s, "egr") {
        Some(MarcRelator::Egr)
    } else if str_eq(s, "etcher") || str_eq(s, "etr") {
        Some(MarcRelator::Etr)
    } else if str_eq(s, "event place") || str_eq(s, "evp") {
        Some(MarcRelator::Evp)
    } else if str_eq(s, "expert") || str_eq(s, "exp") {
        Some(MarcRelator::Exp)
    } else if str_eq(s, "facsimilist") || str_eq(s, "fac") {
        Some(MarcRelator::Fac)
    } else if str_eq(s, "field director") || str_eq(s, "fld") {
        Some(MarcRelator::Fld)
    } else if str_eq(s, "film director") || str_eq(s, "fmd") {
        Some(MarcRelator::Fmd)
    } else if str_eq(s, "film distributor") || str_eq(s, "fds") {
        Some(MarcRelator::Fds)
    } else if str_eq(s, "film editor") || str_eq(s, "flm") {
        Some(MarcRelator::Flm)
    } else if str_eq(s, "film producer") || str_eq(s, "fmp") {
        Some(MarcRelator::Fmp)
    } else if str_eq(s, "filmmaker") || str_eq(s, "fmk") {
        Some(MarcRelator::Fmk)
    } else if str_eq(s, "first party") || str_eq(s, "fpy") {
        Some(MarcRelator::Fpy)
    } else if str_eq(s, "forger") || str_eq(s, "frg") {
        Some(MarcRelator::Frg)
    } else if str_eq(s, "former owner") || str_eq(s, "fmo") {
        Some(MarcRelator::Fmo)
    } else {
        None
    }
}

fn read_relator_named_from_funder(s: &str) -> (r: Option<MarcRelator>)
    ensures
        r == relator_named_from_funder(s@),
{
    if str_eq(s, "funder") || str_eq(s, "fnd") {
        Some(MarcRelator::Fnd)
    } else if str_eq(s, "geographic information specialist") || str_eq(s, "gis") {
        Some(MarcRelator::Gis)
    } else if str_eq(s, "honoree") || str_eq(s, "hnr") {
        Some(MarcRelator::Hnr)
    } else if str_eq(s, "host") || str_eq(s, "hst") {
        Some(MarcRelator::Hst)
    } else if str_eq(s, "host institution") || str_eq(s, "his") {
        Some(MarcRelator::His)
    } else if str_eq(s, "illuminator") || str_eq(s, "ilu") {
        Some(MarcRelator::Ilu)
    } else if str_eq(s, "illustrator") || str_eq(s, "ill") {
        Some(MarcRelator::Ill)
    } else if str_eq(s, "inscriber") || str_eq(s, "ins") {
        Some(MarcRelator::Ins)
    } else if str_eq(s, "instrumentalist") || str_eq(s, "itr") {
        Some(MarcRelator::Itr)
    } else if str_eq(s, "interviewee") || str_eq(s, "ive") {
        Some(MarcRelator::Ive)
    } else if str_eq(s, "interviewer") || str_eq(s, "ivr") {
        Some(MarcRelator::Ivr)
    } else if str_eq(s, "inventor") || str_eq(s, "inv") {
        Some(MarcRelator::Inv)
    } else if str_eq(s, "issuing body") || str_eq(s, "isb") {
        Some(MarcRelator::Isb)
    } else if str_eq(s, "judge") || str_eq(s, "jud") {
        Some(MarcRelator::Jud)
    } else if str_eq(s, "jurisdiction governed") || str_eq(s, "jug") {
        Some(MarcRelator::Jug)
    } else if str_eq(s, "laboratory") || str_eq(s, "lbr") {
        Some(MarcRelator::Lbr)
    } else if str_eq(s, "laboratory director") || str_eq(s, "ldr") {
        Some(MarcRelator::Ldr)
    } else if str_eq(s, "landscape architect") || str_eq(s, "lsa") {
        Some(MarcRelator::Lsa)
    } else if str_eq(s, "lead") || str_eq(s, "led") {
        Some(MarcRelator::Led)
    } else if str_eq(s, "lender") || str_eq(s, "len") {
        Some(MarcRelator::Len)
    } else {
        None
    }
}

fn read_relator_named_from_libelant(s: &str) -> (r: Option<MarcRelator>)
    ensures
        r == relator_named_from_libelant(s@),
{
    if str_eq(s, "libelant") || str_eq(s, "lil") {
        Some(MarcRelator::Lil)
    } else if str_eq(s, "libelant-appellant") || str_eq(s, "lit") {
        Some(MarcRelator::Lit)
    } else if str_eq(s, "libelant-appellee") || str_eq(s, "lie") {
        Some(MarcRelator::Lie)
    } else if str_eq(s, "libelee") || str_eq(s, "lel") {
        Some(MarcRelator::Lel)
    } else if str_eq(s, "libelee-appellant") || str_eq(s, "let") {
        Some(MarcRelator::Let)
    } else if str_eq(s, "libelee-appellee") || str_eq(s, "lee") {
        Some(MarcRelator::Lee)
    } else if str_eq(s, "librettist") || str_eq(s, "lbt") {
        Some(MarcRelator::Lbt)
    } else if str_eq(s, "licensee") || str_eq(s, "lse") {
        Some(MarcRelator::Lse)
    } else if str_eq(s, "licensor") || str_eq(s, "lso") {
        Some(MarcRelator::Lso)
    } else if str_eq(s, "lighting designer") || str_eq(s, "lgd") {
        Some(MarcRelator::Lgd)
    } else if str_eq(s, "lithographer") || str_eq(s, "ltg") {
        Some(MarcRelator::Ltg)
    } else if str_eq(s, "lyricist") || str_eq(s, "lyr") {
        Some(MarcRelator::Lyr)
    } else if str_eq(s, "manufacture place") || str_eq(s, "mfp") {
        Some(MarcRelator::Mfp)
    } else if str_eq(s, "manufacturer") || str_eq(s, "mfr") {
        Some(MarcRelator::Mfr)
    } else if str_eq(s, "marbler") || str_eq(s, "mrb") {
        Some(MarcRelator::Mrb)
    } else if str_eq(s, "markup editor") || str_eq(s, "mrk") {
        Some(MarcRelator::Mrk)
    } else if str_eq(s, "metadata contact") || str_eq(s, "mdc") {
        Some(MarcRelator::Mdc)
    } else if str_eq(s, "metal-engraver") || str_eq(s, "mte") {
        Some(MarcRelator::Mte)
    } else if str_eq(s, "moderator") || str_eq(s, "mod") {
        Some(MarcRelator::Mod)
    } else if str_eq(s, "monitor") || str_eq(s, "mon") {
        Some(MarcRelator::Mon)
    } else {
        None
    }
}

fn read_relator_named_from_music_copyist(s: &str) -> (r: Option<MarcRelator>)
    ensures
        r == relator_named_from_music_copyist(s@),
{
    if str_eq(s, "music copyist") || str_eq(s, "mcp") {
        Some(MarcRelator::Mcp)
    } else if str_eq(s, "musical director") || str_eq(s, "msd") {
        Some(MarcRelator::Msd)
    } else if str_eq(s, "musician") || str_eq(s, "mus") {
        Some(MarcRelator::Mus)
    } else if str_eq(s, "narrator") || str_eq(s, "nrt") {
        Some(MarcRelator::Nrt)
    } else if str_eq(s, "onscreen presenter") || str_eq(s, "osp") {
        Some(MarcRelator::Osp)
    } else if str_eq(s, "opponent") || str_eq(s, "opn") {
        Some(MarcRelator::Opn)
    } else if str_eq(s, "organizer of meeting") || str_eq(s, "orm") {
        Some(MarcRelator::Orm)
    } else if str_eq(s, "originator") || str_eq(s, "org") {
        Some(MarcRelator::Org)
    } else if str_eq(s, "other") || str_eq(s, "oth") {
        Some(MarcRelator::Oth)
    } else if str_eq(s, "owner") || str_eq(s, "own") {
        Some(MarcRelator::Own)
    } else if str_eq(s, "panelist") || str_eq(s, "pan") {
        Some(MarcRelator::Pan)
    } else if str_eq(s, "papermaker") || str_eq(s, "ppm") {
        Some(MarcRelator::Ppm)
    } else if str_eq(s, "patent applicant") || str_eq(s, "pta") {
        Some(MarcRelator::Pta)
    } else if str_eq(s, "patent holder") || str_eq(s, "pth") {
        Some(MarcRelator::Pth)
    } else if str_eq(s, "patron") || str_eq(s, "pat") {
        Some(MarcRelator::Pat)
    } else if str_eq(s, "performer") || str_eq(s, "prf") {
        Some(MarcRelator::Prf)
    } else if str_eq(s, "permitting agency") || str_eq(s, "pma") {
        Some(MarcRelator::Pma)
    } else if str_eq(s, "photographer") || str_eq(s, "pht") {
        Some(MarcRelator::Pht)
    } else if str_eq(s, "plaintiff") || str_eq(s, "ptf") {
        Some(MarcRelator::Ptf)
    } else if str_eq(s, "plaintiff-appellant") || str_eq(s, "ptt") {
        Some(MarcRelator::Ptt)
    } else {
        None
    }
}

fn read_relator_named_from_plaintiff_appellee(s: &str) -> (r: Option<MarcRelator>)
    ensures
        r == relator_named_from_plaintiff_appellee(s@),
{
    if str_eq(s, "plaintiff-appellee") || str_eq(s, "pte") {
        Some(MarcRelator::Pte)
    } else if str_eq(s, "platemaker") || str_eq(s, "plt") {
        Some(MarcRelator::Plt)
    } else if str_eq(s, "praeses") || str_eq(s, "pra") {
        Some(MarcRelator::Pra)
    } else if str_eq(s, "presenter") || str_eq(s, "pre") {
        Some(MarcRelator::Pre)
    } else if str_eq(s, "printer") || str_eq(s, "prt") {
        Some(MarcRelator::Prt)
    } else if str_eq(s, "printer of plates") || str_eq(s, "pop") {
        Some(MarcRelator::Pop)
    } else if str_eq(s, "printmaker") || str_eq(s, "prm") {
        Some(MarcRelator::Prm)
    } else if str_eq(s, "process contact") || str_eq(s, "prc") {
        Some(MarcRelator::Prc)
    } else if str_eq(s, "producer") || str_eq(s, "pro") {
        Some(MarcRelator::Pro)
    } else if str_eq(s, "production company") || str_eq(s, "prn") {
        Some(MarcRelator::Prn)
    } else if str_eq(s, "production designer") || str_eq(s, "prs") {
        Some(MarcRelator::Prs)
    } else if str_eq(s, "production manager") || str_eq(s, "pmn") {
        Some(MarcRelator::Pmn)
    } else if str_eq(s, "production personnel") || str_eq(s, "prd") {
        Some(MarcRelator::Prd)
    } else if str_eq(s, "production place") || str_eq(s, "prp") {
        Some(MarcRelator::Prp)
    } else if str_eq(s, "programmer") || str_eq(s, "prg") {
        Some(MarcRelator::Prg)
    } else if str_eq(s, "project director") || str_eq(s, "pdr") {
        Some(MarcRelator::Pdr)
    } else if str_eq(s, "proofreader") || str_eq(s, "pfr") {
        Some(MarcRelator::Pfr)
    } else if str_eq(s, "provider") || str_eq(s, "prv") {
        Some(MarcRelator::Prv)
    } else if str_eq(s, "publication place") || str_eq(s, "pup") {
        Some(MarcRelator::Pup)
    } else if str_eq(s, "publisher") || str_eq(s, "pbl") {
        Some(MarcRelator::Pbl)
    } else {
        None
    }
}

fn read_relator_named_from_publishing_director(s: &str) -> (r: Option<MarcRelator>)
    ensures
        r == relator_named_from_publishing_director(s@),
{
    if str_eq(s, "publishing director") || str_eq(s, "pbd") {
        Some(MarcRelator::Pbd)
    } else if str_eq(s, "puppeteer") || str_eq(s, "ppt") {
        Some(MarcRelator::Ppt)
    } else if str_eq(s, "radio director") || str_eq(s, "rdd") {
        Some(MarcRelator::Rdd)
    } else if str_eq(s, "radio producer") || str_eq(s, "rpc") {
        Some(MarcRelator::Rpc)
    } else if str_eq(s, "recording engineer") || str_eq(s, "rce") {
        Some(MarcRelator::Rce)
    } else if str_eq(s, "recordist") || str_eq(s, "rcd") {
        Some(MarcRelator::Rcd)
    } else if str_eq(s, "redaktor") || str_eq(s, "red") {
        Some(MarcRelator::Red)
    } else if str_eq(s, "renderer") || str_eq(s, "ren") {
        Some(MarcRelator::Ren)
    } else if str_eq(s, "reporter") || str_eq(s, "rpt") {
        Some(MarcRelator::Rpt)
    } else if str_eq(s, "repository") || str_eq(s, "rps") {
        Some(MarcRelator::Rps)
    } else if str_eq(s, "research team head") || str_eq(s, "rth") {
        Some(MarcRelator::Rth)
    } else if str_eq(s, "research team member") || str_eq(s, "rtm") {
        Some(MarcRelator::Rtm)
    } else if str_eq(s, "researcher") || str_eq(s, "res") {
        Some(MarcRelator::Res)
    } else if str_eq(s, "respondent") || str_eq(s, "rsp") {
        Some(MarcRelator::Rsp)
    } else if str_eq(s, "respondent-appellant") || str_eq(s, "rst") {
        Some(MarcRelator::Rst)
    } else if str_eq(s, "respondent-appellee") || str_eq(s, "rse") {
        Some(MarcRelator::Rse)
    } else if str_eq(s, "responsible party") || str_eq(s, "rpy") {
        Some(MarcRelator::Rpy)
    } else if str_eq(s, "restager") || str_eq(s, "rsg") {
        Some(MarcRelator::Rsg)
    } else if str_eq(s, "restorationist") || str_eq(s, "rsr") {
        Some(MarcRelator::Rsr)
    } else if str_eq(s, "rev") {
        Some(MarcRelator::Rev)
    } else {
        None
    }
}

fn read_relator_named_from_rubricator(s: &str) -> (r: Option<MarcRelator>)
    ensures
        r == relator_named_from_rubricator(s@),
{
    if str_eq(s, "rubricator") || str_eq(s, "rbr") {
        Some(MarcRelator::Rbr)
    } else if str_eq(s, "scenarist") || str_eq(s, "sce") {
        Some(MarcRelator::Sce)
    } else if str_eq(s, "scientific advisor") || str_eq(s, "sad") {
        Some(MarcRelator::Sad)
    } else if str_eq(s, "screenwriter") || str_eq(s, "aus") {
        Some(MarcRelator::Aus)
    } else if str_eq(s, "scribe") || str_eq(s, "scr") {
        Some(MarcRelator::Scr)
    } else if str_eq(s, "sculptor") || str_eq(s, "scl") {
        Some(MarcRelator::Scl)
    } else if str_eq(s, "second party") || str_eq(s, "spy") {
        Some(MarcRelator::Spy)
    } else if str_eq(s, "secretary") || str_eq(s, "sec") {
        Some(MarcRelator::Sec)
    } else if str_eq(s, "seller") || str_eq(s, "sll") {
        Some(MarcRelator::Sll)
    } else if str_eq(s, "set designer") || str_eq(s, "std") {
        Some(MarcRelator::Std)
    } else if str_eq(s, "setting") || str_eq(s, "stg") {
        Some(MarcRelator::Stg)
    } else if str_eq(s, "signer") || str_eq(s, "sgn") {
        Some(MarcRelator::Sgn)
    } else if str_eq(s, "singer") || str_eq(s, "sng") {
        Some(MarcRelator::Sng)
    } else if str_eq(s, "sound designer") || str_eq(s, "sds") {
        Some(MarcRelator::Sds)
    } else if str_eq(s, "speaker") || str_eq(s, "spk") {
        Some(MarcRelator::Spk)
    } else if str_eq(s, "sponsor") || str_eq(s, "spn") {
        Some(MarcRelator::Spn)
    } else if str_eq(s, "stage director") || str_eq(s, "sgd") {
        Some(MarcRelator::Sgd)
    } else if str_eq(s, "stage manager") || str_eq(s, "stm") {
        Some(MarcRelator::Stm)
    } else if str_eq(s, "standards body") || str_eq(s, "stn") {
        Some(MarcRelator::Stn)
    } else if str_eq(s, "stereotyper") || str_eq(s, "str") {
        Some(MarcRelator::Str)
    } else {
        None
    }
}

fn read_relator_named_from_storyteller(s: &str) -> (r: Option<MarcRelator>)
    ensures
        r == relator_named_from_storyteller(s@),
{
    if str_eq(s, "storyteller") || str_eq(s, "stl") {
        Some(MarcRelator::Stl)
    } else if str_eq(s, "supporting host") || str_eq(s, "sht") {
        Some(MarcRelator::Sht)
    } else if str_eq(s, "surveyor") || str_eq(s, "srv") {
        Some(MarcRelator::Srv)
    } else if str_eq(s, "teacher") || str_eq(s, "tch") {
        Some(MarcRelator::Tch)
    } else if str_eq(s, "technical director") || str_eq(s, "tcd") {
        Some(MarcRelator::Tcd)
    } else if str_eq(s, "television director") || str_eq(s, "tld") {
        Some(MarcRelator::Tld)
    } else if str_eq(s, "television producer") || str_eq(s, "tlp") {
        Some(MarcRelator::Tlp)
    } else if str_eq(s, "thesis advisor") || str_eq(s, "ths") {
        Some(MarcRelator::Ths)
    } else if str_eq(s, "transcriber") || str_eq(s, "trc") {
        Some(MarcRelator::Trc)
    } else if str_eq(s, "translator") || str_eq(s, "trl") {
        Some(MarcRelator::Trl)
    } else if str_eq(s, "type designer") || str_eq(s, "tyd") {
        Some(MarcRelator::Tyd)
    } else if str_eq(s, "typographer") || str_eq(s, "tyg") {
        Some(MarcRelator::Tyg)
    } else if str_eq(s, "university place") || str_eq(s, "uvp") {
        Some(MarcRelator::Uvp)
    } else if str_eq(s, "videographer") || str_eq(s, "vdg") {
        Some(MarcRelator::Vdg)
    } else if str_eq(s, "witness") || str_eq(s, "wit") {
        Some(MarcRelator::Wit)
    } else if str_eq(s, "wood engraver") || str_eq(s, "wde") {
        Some(MarcRelator::Wde)
    } else if str_eq(s, "woodcutter") || str_eq(s, "wdc") {
        Some(MarcRelator::Wdc)
    } else if str_eq(s, "writer of accompanying material") || str_eq(s, "wam") {
        Some(MarcRelator::Wam)
    } else if str_eq(s, "writer of added commentary") || str_eq(s, "wac") {
        Some(MarcRelator::Wac)
    } else if str_eq(s, "writer of added lyrics") || str_eq(s, "wal") {
        Some(MarcRelator::Wal)
    } else {
        None
    }
}

fn read_relator_named_from_writer_of_added_text(s: &str) -> (r: Option<MarcRelator>)
    ensures
        r == relator_named_from_writer_of_added_text(s@),
{
    if str_eq(s, "writer of added text") || str_eq(s, "wat") {
        Some(MarcRelator::Wat)
    } else {
        None
    }
}

impl MarcRelator {
    /// Reads a relator from its name or its code.
    pub fn from_str(s: &str) -> (r: Result<Self, ()>)
        ensures
            match relator_named(s@) {
                Some(v) => r == Ok::<Self, ()>(v),
                None => r is Err,
            },
    {
        match read_relator_named_from_abridger(s) {
            Some(v) => {
                return Ok(v);
            },
            None => {},
        }
        match read_relator_named_from_author(s) {
            Some(v) => {
                return Ok(v);
            },
            None => {},
        }
        match read_relator_named_from_censor(s) {
            Some(v) => {
                return Ok(v);
            },
            None => {},
        }
        match read_relator_named_from_consultant_to_a_project(s) {
            Some(v) => {
                return Ok(v);
            },
            None => {},
        }
        match read_relator_named_from_data_contributor(s) {
            Some(v) => {
                return Ok(v);
            },
            None => {},
        }
        match read_relator_named_from_editor_of_compilation(s) {
            Some(v) => {
                return Ok(v);
            },
            None => {},
        }
        match read_relator_named_from_funder(s) {
            Some(v) => {
                return Ok(v);
            },
            None => {},
        }
        match read_relator_named_from_libelant(s) {
            Some(v) => {
                return Ok(v);
            },
            None => {},
        }
        match read_relator_named_from_music_copyist(s) {
            Some(v) => {
                return Ok(v);
            },
            None => {},
        }
        match read_relator_named_from_plaintiff_appellee(s) {
            Some(v) => {
                return Ok(v);
            },
            None => {},
        }
        match read_relator_named_from_publishing_director(s) {
            Some(v) => {
                return Ok(v);
            },
            None => {},
        }
        match read_relator_named_from_rubricator(s) {
            Some(v) => {
                return Ok(v);
            },
            None => {},
        }
        match read_relator_named_from_storyteller(s) {
            Some(v) => {
                return Ok(v);
            },
            None => {},
        }
        match read_relator_named_from_writer_of_added_text(s) {
            Some(v) => {
                return Ok(v);
            },
            None => {},
        }
        Err(())
    }
}

/// The kinds of title that an EPUB knows.
#[derive(Debug, PartialEq, Eq, Structural, Clone, Copy, Hash)]
pub enum EpubTitleType {
    Main,
    Subtitle,
    Short,
    Collection,
    Edition,
    Expanded,
}

impl EpubTitleType {
    /// The name of this kind of title.
    pub open spec fn name(self) -> Seq<char> {
        match self {
            EpubTitleType::Main => "main"@,
            EpubTitleType::Subtitle => "subtitle"@,
            EpubTitleType::Short => "short"@,
            EpubTitleType::Collection => "collection"@,
            EpubTitleType::Edition => "edition"@,
            EpubTitleType::Expanded => "expanded"@,
        }
    }

    /// The name of this kind of title.
    pub fn as_name(self) -> (r: &'static str)
        ensures
            r@ == self.name(),
    {
        match self {
            EpubTitleType::Main => "main",
            EpubTitleType::Subtitle => "subtitle",
            EpubTitleType::Short => "short",
            EpubTitleType::Collection => "collection",
            EpubTitleType::Edition => "edition",
            EpubTitleType::Expanded => "expanded",
        }
    }
}

/// The kind of title that a name stands for.
pub open spec fn title_type_named(s: Seq<char>) -> Option<EpubTitleType> {
    if s == "main"@ {
        Some(EpubTitleType::Main)
    } else if s == "subtitle"@ {
        Some(EpubTitleType::Subtitle)
    } else if s == "short"@ {
        Some(EpubTitleType::Short)
    } else if s == "collection"@ {
        Some(EpubTitleType::Collection)
    } else if s == "edition"@ {
        Some(EpubTitleType::Edition)
    } else if s == "expanded"@ {
        Some(EpubTitleType::Expanded)
    } else {
        None
    }
}

/// The name of a kind of title is read as that kind.
pub proof fn law_title_type_round_trip(kind: EpubTitleType)
    ensures
        title_type_named(kind.name()) == Some(kind),
{
    reveal_strlit("main");
    reveal_strlit("subtitle");
    reveal_strlit("short");
    reveal_strlit("collection");
    reveal_strlit("edition");
    reveal_strlit("expanded");
    assert(kind.name().len() > 0);
    match kind {
        EpubTitleType::Main => {},
        EpubTitleType::Subtitle => {
            assert("subtitle"@[0] != "main"@[0]);
        },
        EpubTitleType::Short => {
            assert("short"@[0] != "main"@[0]);
            assert("short"@.len() != "subtitle"@.len());
        },
        EpubTitleType::Collection => {
            assert("collection"@[0] != "main"@[0]);
            assert("collection"@[0] != "subtitle"@[0]);
            assert("collection"@[0] != "short"@[0]);
        },
        EpubTitleType::Edition => {
            assert("edition"@[0] != "main"@[0]);
            assert("edition"@[0] != "subtitle"@[0]);
            assert("edition"@[0] != "short"@[0]);
            assert("edition"@[0] != "collection"@[0]);
        },
        EpubTitleType::Expanded => {
            assert("expanded"@[0] != "main"@[0]);
            assert("expanded"@[0] != "subtitle"@[0]);
            assert("expanded"@[0] != "short"@[0]);
            assert("expanded"@[0] != "collection"@[0]);
            assert("expanded"@[1] != "edition"@[1]);
        },
    }
}

fn read_title_type_named(s: &str) -> (r: Option<EpubTitleType>)
    ensures
        r == title_type_named(s@),
{
    if str_eq(s, "main") {
        Some(EpubTitleType::Main)
    } else if str_eq(s, "subtitle") {
        Some(EpubTitleType::Subtitle)
    } else if str_eq(s, "short") {
        Some(EpubTitleType::Short)
    } else if str_eq(s, "collection") {
        Some(EpubTitleType::Collection)
    } else if str_eq(s, "edition") {
        Some(EpubTitleType::Edition)
    } else if str_eq(s, "expanded") {
        Some(EpubTitleType::Expanded)
    } else {
        None
    }
}

impl EpubTitleType {
    /// Reads a kind of title from its name.
    pub fn from_str(s: &str) -> (r: Result<Self, ()>)
        ensures
            match title_type_named(s@) {
                Some(v) => r == Ok::<Self, ()>(v),
                None => r is Err,
            },
    {
        match read_title_type_named(s) {
            Some(v) => {
                return Ok(v);
            },
            None => {},
        }
        Err(())
    }
}

/// The terms of the Dublin Core.
#[derive(Debug, PartialEq, Eq, Structural, Clone, Copy, Hash)]
pub enum DublinCoreTerm {
    Abstract,
    Accessrights,
    Accrualmethod,
    Accrualperiodicity,
    Accrualpolicy,
    Alternative,
    Audience,
    Available,
    Bibliographiccitation,
    Conformsto,
    Contributor,
    Coverage,
    Created,
    Creator,
    Date,
    Dateaccepted,
    Datecopyrighted,
    Datesubmitted,
    Description,
    Educationlevel,
    Extent,
    Format,
    Hasformat,
    Haspart,
    Hasversion,
    Identifier,
    Instructionalmethod,
    Isformatof,
    Ispartof,
    Isreferencedby,
    Isreplacedby,
    Isrequiredby,
    Isversionof,
    Issued,
    Language,
    License,
    Mediator,
    Medium,
    Modified,
    Provenance,
    Publisher,
    References,
    Relation,
    Replaces,
    Requires,
    Rights,
    Rightsholder,
    Source,
    Spatial,
    Subject,
    Tableofcontents,
    Temporal,
    Title,
    Type,
    Valid,
}

/// The elements of the Dublin Core.
#[derive(Debug, PartialEq, Eq, Structural, Clone, Copy, Hash)]
pub enum DublinCoreElement {
    Contributor,
    Coverage,
    Creator,
    Date,
    Description,
    Format,
    Identifier,
    Language,
    Publisher,
    Relation,
    Rights,
    Source,
    Subject,
    Title,
    Type,
}

impl DublinCoreElement {
    /// The name of the tag of this element.
    pub open spec fn tagname(self) -> Seq<char> {
        match self {
            DublinCoreElement::Contributor => "dc:contributor"@,
            DublinCoreElement::Coverage => "dc:coverage"@,
            DublinCoreElement::Creator => "dc:creator"@,
            DublinCoreElement::Date => "dc:date"@,
            DublinCoreElement::Description => "dc:description"@,
            DublinCoreElement::Format => "dc:format"@,
            DublinCoreElement::Identifier => "dc:identifier"@,
            DublinCoreElement::Language => "dc:language"@,
            DublinCoreElement::Publisher => "dc:publisher"@,
            DublinCoreElement::Relation => "dc:relation"@,
            DublinCoreElement::Rights => "dc:rights"@,
            DublinCoreElement::Source => "dc:source"@,
            DublinCoreElement::Subject => "dc:subject"@,
            DublinCoreElement::Title => "dc:title"@,
            DublinCoreElement::Type => "dc:type"@,
        }
    }

    /// The name of the tag of this element.
    pub fn tag(self) -> (r: &'static str)
        ensures
            r@ == self.tagname(),
    {
        match self {
            DublinCoreElement::Contributor => "dc:contributor",
            DublinCoreElement::Coverage => "dc:coverage",
            DublinCoreElement::Creator => "dc:creator",
            DublinCoreElement::Date => "dc:date",
            DublinCoreElement::Description => "dc:description",
            DublinCoreElement::Format => "dc:format",
            DublinCoreElement::Identifier => "dc:identifier",
            DublinCoreElement::Language => "dc:language",
            DublinCoreElement::Publisher => "dc:publisher",
            DublinCoreElement::Relation => "dc:relation",
            DublinCoreElement::Rights => "dc:rights",
            DublinCoreElement::Source => "dc:source",
            DublinCoreElement::Subject => "dc:subject",
            DublinCoreElement::Title => "dc:title",
            DublinCoreElement::Type => "dc:type",
        }
    }
}

impl DublinCoreElement {
    /// The name of the tag of this element.
    pub fn as_tagname(&self) -> (r: String)
        ensures
            r@ == self.tagname(),
    {
        String::from_str(self.tag())
    }
}

/// The kinds of identifier of a product, from the ONIX list.
#[derive(Debug, PartialEq, Eq, Structural, Clone, Copy, Hash)]
pub enum OnixProductIdentifier {
    /// Proprietary.
    I01,
    /// ISBN-10.
    I02,
    /// GTIN-13.
    I03,
    /// UPC.
    I04,
    /// ISMN-10.
    I05,
    /// DOI.
    I06,
    /// LCCN.
    I13,
    /// GTIN-14.
    I14,
    /// ISBN-13.
    I15,
    /// Legal deposit number.
    I17,
    /// URN.
    I22,
    /// OCLC number.
    I23,
    /// Co-publisher's ISBN-13.
    I24,
    /// ISMN-13.
    I25,
    /// ISBN-A.
    I26,
    /// JP e-code.
    I27,
    /// OLCC number.
    I28,
    /// JP Magazine ID.
    I29,
    /// UPC12+5.
    I30,
    /// BNF Control number.
    I31,
    /// ARK.
    I35,
}

impl OnixProductIdentifier {
    /// The code of this kind of identifier.
    pub open spec fn code(self) -> Seq<char> {
        match self {
            OnixProductIdentifier::I01 => "i01"@,
            OnixProductIdentifier::I02 => "i02"@,
            OnixProductIdentifier::I03 => "i03"@,
            OnixProductIdentifier::I04 => "i04"@,
            OnixProductIdentifier::I05 => "i05"@,
            OnixProductIdentifier::I06 => "i06"@,
            OnixProductIdentifier::I13 => "i13"@,
            OnixProductIdentifier::I14 => "i14"@,
            OnixProductIdentifier::I15 => "i15"@,
            OnixProductIdentifier::I17 => "i17"@,
            OnixProductIdentifier::I22 => "i22"@,
            OnixProductIdentifier::I23 => "i23"@,
            OnixProductIdentifier::I24 => "i24"@,
            OnixProductIdentifier::I25 => "i25"@,
            OnixProductIdentifier::I26 => "i26"@,
            OnixProductIdentifier::I27 => "i27"@,
            OnixProductIdentifier::I28 => "i28"@,
            OnixProductIdentifier::I29 => "i29"@,
            OnixProductIdentifier::I30 => "i30"@,
            OnixProductIdentifier::I31 => "i31"@,
            OnixProductIdentifier::I35 => "i35"@,
        }
    }

    /// The code of this kind of identifier.
    pub fn as_code(self) -> (r: &'static str)
        ensures
            r@ == self.code(),
    {
        match self {
            OnixProductIdentifier::I01 => "i01",
            OnixProductIdentifier::I02 => "i02",
            OnixProductIdentifier::I03 => "i03",
            OnixProductIdentifier::I04 => "i04",
            OnixProductIdentifier::I05 => "i05",
            OnixProductIdentifier::I06 => "i06",
            OnixProductIdentifier::I13 => "i13",
            OnixProductIdentifier::I14 => "i14",
            OnixProductIdentifier::I15 => "i15",
            OnixProductIdentifier::I17 => "i17",
            OnixProductIdentifier::I22 => "i22",
            OnixProductIdentifier::I23 => "i23",
            OnixProductIdentifier::I24 => "i24",
            OnixProductIdentifier::I25 => "i25",
            OnixProductIdentifier::I26 => "i26",
            OnixProductIdentifier::I27 => "i27",
            OnixProductIdentifier::I28 => "i28",
            OnixProductIdentifier::I29 => "i29",
            OnixProductIdentifier::I30 => "i30",
            OnixProductIdentifier::I31 => "i31",
            OnixProductIdentifier::I35 => "i35",
        }
    }
}

/// The kinds of title, from the ONIX list.
#[derive(Debug, PartialEq, Eq, Structural, Clone, Copy, Hash)]
pub enum OnixTitleCode {
    /// Undefined.
    T00,
    /// Distinctive title (book).
    T01,
    /// ISSN key title of serial.
    T02,
    /// Title in original language.
    T03,
    /// Title acronym or initialism.
    T04,
    /// Abbreviated title.
    T05,
    /// Title in other language.
    T06,
    /// Thematic title of journal issue.
    T07,
    /// Former title.
    T08,
    /// Distributor's title.
    T10,
    /// Alternative title on cover.
    T11,
    /// Alternative title on back.
    T12,
    /// Expanded title.
    T13,
    /// Alternative title.
    T14,
}

impl OnixTitleCode {
    /// The number of this kind of title.
    pub open spec fn number(self) -> Seq<char> {
        match self {
            OnixTitleCode::T00 => "00"@,
            OnixTitleCode::T01 => "01"@,
            OnixTitleCode::T02 => "02"@,
            OnixTitleCode::T03 => "03"@,
            OnixTitleCode::T04 => "04"@,
            OnixTitleCode::T05 => "05"@,
            OnixTitleCode::T06 => "06"@,
            OnixTitleCode::T07 => "07"@,
            OnixTitleCode::T08 => "08"@,
            OnixTitleCode::T10 => "10"@,
            OnixTitleCode::T11 => "11"@,
            OnixTitleCode::T12 => "12"@,
            OnixTitleCode::T13 => "13"@,
            OnixTitleCode::T14 => "14"@,
        }
    }

    /// The number of this kind of title.
    pub fn as_number(self) -> (r: &'static str)
        ensures
            r@ == self.number(),
    {
        match self {
            OnixTitleCode::T00 => "00",
            OnixTitleCode::T01 => "01",
            OnixTitleCode::T02 => "02",
            OnixTitleCode::T03 => "03",
            OnixTitleCode::T04 => "04",
            OnixTitleCode::T05 => "05",
            OnixTitleCode::T06 => "06",
            OnixTitleCode::T07 => "07",
            OnixTitleCode::T08 => "08",
            OnixTitleCode::T10 => "10",
            OnixTitleCode::T11 => "11",
            OnixTitleCode::T12 => "12",
            OnixTitleCode::T13 => "13",
            OnixTitleCode::T14 => "14",
        }
    }
}

/// The roles of a contributor, from the ONIX list.
#[derive(Debug, PartialEq, Eq, Structural, Clone, Copy, Hash)]
pub enum OnixContributorCode {
    /// By (author).
    A01,
    /// With.
    A02,
    /// Screenplay by.
    A03,
    /// Libretto by.
    A04,
    /// Lyrics by.
    A05,
    /// By (composer).
    A06,
    /// By (artist).
    A07,
    /// By (photographer).
    A08,
    /// Created by.
    A09,
    /// From an idea by.
    A10,
    /// Designed by.
    A11,
    /// Illustrated by.
    A12,
    /// Photographs by.
    A13,
    /// Text by.
    A14,
    /// Preface by.
    A15,
    /// Prologue by.
    A16,
    /// Summary by.
    A17,
    /// Supplement by.
    A18,
    /// Afterword by.
    A19,
    /// Notes by.
    A20,
    /// Commentaries by.
    A21,
    /// Epilogue by.
    A22,
    /// Foreword by.
    A23,
    /// Introduction by.
    A24,
    /// Footnotes by.
    A25,
    /// Memoir by.
    A26,
    /// Experiments by.
    A27,
    /// Introduction and notes by.
    A29,
    /// Software written by.
    A30,
    /// Book and lyrics by.
    A31,
    /// Contributions by.
    A32,
    /// Appendix by.
    A33,
    /// Index by.
    A34,
    /// Drawings by.
    A35,
    /// Cover design or artwork by.
    A36,
    /// Preliminary work by.
    A37,
    /// Original author.
    A38,
    /// Maps by.
    A39,
    /// Inked or colored by.
    A40,
    /// Paper engineering by.
    A41,
    /// Continued by.
    A42,
    /// Interviewer.
    A43,
    /// Interviewee.
    A44,
    /// Comic script by.
    A45,
    /// Inker.
    A46,
    /// Colorist.
    A47,
    /// Letterer.
    A48,
    /// Research by.
    A51,
    /// Other primary creator.
    A99,
    /// Edited by.
    B01,
    /// Revised by.
    B02,
    /// Retold by.
    B03,
    /// Abridged by.
    B04,
    /// Adapted by.
    B05,
    /// Translated by.
    B06,
    /// As told by.
    B07,
    /// Translated with commentary by.
    B08,
    /// Series edited by.
    B09,
    /// Edited and translated by.
    B10,
    /// Editor-in-chief.
    B11,
    /// Guest editor.
    B12,
    /// Volume editor.
    B13,
    /// Editorial board member.
    B14,
    /// Editorial coordination by.
    B15,
    /// Managing editor.
    B16,
    /// Founded by.
    B17,
    /// Prepared for publication by.
    B18,
    /// Associate editor.
    B19,
    /// Consultant editor.
    B20,
    /// General editor.
    B21,
    /// Dramatized by.
    B22,
    /// General rapporteur.
    B23,
    /// Literary editor.
    B24,
    /// Arranged by (music).
    B25,
    /// Technical editor.
    B26,
    /// Thesis advisor or supervisor.
    B27,
    /// Thesis examiner.
    B28,
    /// Scientific editor.
    B29,
    /// Historical advisor.
    B30,
    /// Original editor.
    B31,
    /// Other adaptation by.
    B99,
    /// Compiled by.
    C01,
    /// Selected by.
    C02,
    /// Non-text material selected by.
    C03,
    /// Curated by.
    C04,
    /// Other compilation by.
    C99,
    /// Producer.
    D01,
    /// Director.
    D02,
    /// Conductor.
    D03,
    /// Choreographer.
    D04,
    /// Other direction by.
    D99,
    /// Actor.
    E01,
    /// Dancer.
    E02,
    /// Narrator.
    E03,
    /// Commentator.
    E04,
    /// Vocal soloist.
    E05,
    /// Instrumental soloist.
    E06,
    /// Read by.
    E07,
    /// Performed by (orchestra, band, ensemble).
    E08,
    /// Speaker.
    E09,
    /// Presenter.
    E10,
    /// Performed by.
    E99,
    /// Filmed/photographed by.
    F01,
    /// Editor (film or video).
    F02,
    /// Other recording by.
    F99,
    /// Assisted by.
    Z01,
    /// Honored/dedicated to.
    Z02,
    /// (Various roles).
    Z98,
    /// Other.
    Z99,
}

impl OnixContributorCode {
    /// The code of this role.
    pub open spec fn code(self) -> Seq<char> {
        match self {
            OnixContributorCode::A01 => "a01"@,
            OnixContributorCode::A02 => "a02"@,
            OnixContributorCode::A03 => "a03"@,
            OnixContributorCode::A04 => "a04"@,
            OnixContributorCode::A05 => "a05"@,
            OnixContributorCode::A06 => "a06"@,
            OnixContributorCode::A07 => "a07"@,
            OnixContributorCode::A08 => "a08"@,
            OnixContributorCode::A09 => "a09"@,
            OnixContributorCode::A10 => "a10"@,
            OnixContributorCode::A11 => "a11"@,
            OnixContributorCode::A12 => "a12"@,
            OnixContributorCode::A13 => "a13"@,
            OnixContributorCode::A14 => "a14"@,
            OnixContributorCode::A15 => "a15"@,
            OnixContributorCode::A16 => "a16"@,
            OnixContributorCode::A17 => "a17"@,
            OnixContributorCode::A18 => "a18"@,
            OnixContributorCode::A19 => "a19"@,
            OnixContributorCode::A20 => "a20"@,
            OnixContributorCode::A21 => "a21"@,
            OnixContributorCode::A22 => "a22"@,
            OnixContributorCode::A23 => "a23"@,
            OnixContributorCode::A24 => "a24"@,
            OnixContributorCode::A25 => "a25"@,
            OnixContributorCode::A26 => "a26"@,
            OnixContributorCode::A27 => "a27"@,
            OnixContributorCode::A29 => "a29"@,
            OnixContributorCode::A30 => "a30"@,
            OnixContributorCode::A31 => "a31"@,
            OnixContributorCode::A32 => "a32"@,
            OnixContributorCode::A33 => "a33"@,
            OnixContributorCode::A34 => "a34"@,
            OnixContributorCode::A35 => "a35"@,
            OnixContributorCode::A36 => "a36"@,
            OnixContributorCode::A37 => "a37"@,
            OnixContributorCode::A38 => "a38"@,
            OnixContributorCode::A39 => "a39"@,
            OnixContributorCode::A40 => "a40"@,
            OnixContributorCode::A41 => "a41"@,
            OnixContributorCode::A42 => "a42"@,
            OnixContributorCode::A43 => "a43"@,
            OnixContributorCode::A44 => "a44"@,
            OnixContributorCode::A45 => "a45"@,
            OnixContributorCode::A46 => "a46"@,
            OnixContributorCode::A47 => "a47"@,
            OnixContributorCode::A48 => "a48"@,
            OnixContributorCode::A51 => "a51"@,
            OnixContributorCode::A99 => "a99"@,
            OnixContributorCode::B01 => "b01"@,
            OnixContributorCode::B02 => "b02"@,
            OnixContributorCode::B03 => "b03"@,
            OnixContributorCode::B04 => "b04"@,
            OnixContributorCode::B05 => "b05"@,
            OnixContributorCode::B06 => "b06"@,
            OnixContributorCode::B07 => "b07"@,
            OnixContributorCode::B08 => "b08"@,
            OnixContributorCode::B09 => "b09"@,
            OnixContributorCode::B10 => "b10"@,
            OnixContributorCode::B11 => "b11"@,
            OnixContributorCode::B12 => "b12"@,
            OnixContributorCode::B13 => "b13"@,
            OnixContributorCode::B14 => "b14"@,
            OnixContributorCode::B15 => "b15"@,
            OnixContributorCode::B16 => "b16"@,
            OnixContributorCode::B17 => "b17"@,
            OnixContributorCode::B18 => "b18"@,
            OnixContributorCode::B19 => "b19"@,
            OnixContributorCode::B20 => "b20"@,
            OnixContributorCode::B21 => "b21"@,
            OnixContributorCode::B22 => "b22"@,
            OnixContributorCode::B23 => "b23"@,
            OnixContributorCode::B24 => "b24"@,
            OnixContributorCode::B25 => "b25"@,
            OnixContributorCode::B26 => "b26"@,
            OnixContributorCode::B27 => "b27"@,
            OnixContributorCode::B28 => "b28"@,
            OnixContributorCode::B29 => "b29"@,
            OnixContributorCode::B30 => "b30"@,
            OnixContributorCode::B31 => "b31"@,
            OnixContributorCode::B99 => "b99"@,
            OnixContributorCode::C01 => "c01"@,
            OnixContributorCode::C02 => "c02"@,
            OnixContributorCode::C03 => "c03"@,
            OnixContributorCode::C04 => "c04"@,
            OnixContributorCode::C99 => "c99"@,
            OnixContributorCode::D01 => "d01"@,
            OnixContributorCode::D02 => "d02"@,
            OnixContributorCode::D03 => "d03"@,
            OnixContributorCode::D04 => "d04"@,
            OnixContributorCode::D99 => "d99"@,
            OnixContributorCode::E01 => "e01"@,
            OnixContributorCode::E02 => "e02"@,
            OnixContributorCode::E03 => "e03"@,
            OnixContributorCode::E04 => "e04"@,
            OnixContributorCode::E05 => "e05"@,
            OnixContributorCode::E06 => "e06"@,
            OnixContributorCode::E07 => "e07"@,
            OnixContributorCode::E08 => "e08"@,
            OnixContributorCode::E09 => "e09"@,
            OnixContributorCode::E10 => "e10"@,
            OnixContributorCode::E99 => "e99"@,
            OnixContributorCode::F01 => "f01"@,
            OnixContributorCode::F02 => "f02"@,
            OnixContributorCode::F99 => "f99"@,
            OnixContributorCode::Z01 => "z01"@,
            OnixContributorCode::Z02 => "z02"@,
            OnixContributorCode::Z98 => "z98"@,
            OnixContributorCode::Z99 => "z99"@,
        }
    }

    /// The code of this role.
    pub fn as_code(self) -> (r: &'static str)
        ensures
            r@ == self.code(),
    {
        match self {
            OnixContributorCode::A01 => "a01",
            OnixContributorCode::A02 => "a02",
            OnixContributorCode::A03 => "a03",
            OnixContributorCode::A04 => "a04",
            OnixContributorCode::A05 => "a05",
            OnixContributorCode::A06 => "a06",
            OnixContributorCode::A07 => "a07",
            OnixContributorCode::A08 => "a08",
            OnixContributorCode::A09 => "a09",
            OnixContributorCode::A10 => "a10",
            OnixContributorCode::A11 => "a11",
            OnixContributorCode::A12 => "a12",
            OnixContributorCode::A13 => "a13",
            OnixContributorCode::A14 => "a14",
            OnixContributorCode::A15 => "a15",
            OnixContributorCode::A16 => "a16",
            OnixContributorCode::A17 => "a17",
            OnixContributorCode::A18 => "a18",
            OnixContributorCode::A19 => "a19",
            OnixContributorCode::A20 => "a20",
            OnixContributorCode::A21 => "a21",
            OnixContributorCode::A22 => "a22",
            OnixContributorCode::A23 => "a23",
            OnixContributorCode::A24 => "a24",
            OnixContributorCode::A25 => "a25",
            OnixContributorCode::A26 => "a26",
            OnixContributorCode::A27 => "a27",
            OnixContributorCode::A29 => "a29",
            OnixContributorCode::A30 => "a30",
            OnixContributorCode::A31 => "a31",
            OnixContributorCode::A32 => "a32",
            OnixContributorCode::A33 => "a33",
            OnixContributorCode::A34 => "a34",
            OnixContributorCode::A35 => "a35",
            OnixContributorCode::A36 => "a36",
            OnixContributorCode::A37 => "a37",
            OnixContributorCode::A38 => "a38",
            OnixContributorCode::A39 => "a39",
            OnixContributorCode::A40 => "a40",
            OnixContributorCode::A41 => "a41",
            OnixContributorCode::A42 => "a42",
            OnixContributorCode::A43 => "a43",
            OnixContributorCode::A44 => "a44",
            OnixContributorCode::A45 => "a45",
            OnixContributorCode::A46 => "a46",
            OnixContributorCode::A47 => "a47",
            OnixContributorCode::A48 => "a48",
            OnixContributorCode::A51 => "a51",
            OnixContributorCode::A99 => "a99",
            OnixContributorCode::B01 => "b01",
            OnixContributorCode::B02 => "b02",
            OnixContributorCode::B03 => "b03",
            OnixContributorCode::B04 => "b04",
            OnixContributorCode::B05 => "b05",
            OnixContributorCode::B06 => "b06",
            OnixContributorCode::B07 => "b07",
            OnixContributorCode::B08 => "b08",
            OnixContributorCode::B09 => "b09",
            OnixContributorCode::B10 => "b10",
            OnixContributorCode::B11 => "b11",
            OnixContributorCode::B12 => "b12",
            OnixContributorCode::B13 => "b13",
            OnixContributorCode::B14 => "b14",
            OnixContributorCode::B15 => "b15",
            OnixContributorCode::B16 => "b16",
            OnixContributorCode::B17 => "b17",
            OnixContributorCode::B18 => "b18",
            OnixContributorCode::B19 => "b19",
            OnixContributorCode::B20 => "b20",
            OnixContributorCode::B21 => "b21",
            OnixContributorCode::B22 => "b22",
            OnixContributorCode::B23 => "b23",
            OnixContributorCode::B24 => "b24",
            OnixContributorCode::B25 => "b25",
            OnixContributorCode::B26 => "b26",
            OnixContributorCode::B27 => "b27",
            OnixContributorCode::B28 => "b28",
            OnixContributorCode::B29 => "b29",
            OnixContributorCode::B30 => "b30",
            OnixContributorCode::B31 => "b31",
            OnixContributorCode::B99 => "b99",
            OnixContributorCode::C01 => "c01",
            OnixContributorCode::C02 => "c02",
            OnixContributorCode::C03 => "c03",
            OnixContributorCode::C04 => "c04",
            OnixContributorCode::C99 => "c99",
            OnixContributorCode::D01 => "d01",
            OnixContributorCode::D02 => "d02",
            OnixContributorCode::D03 => "d03",
            OnixContributorCode::D04 => "d04",
            OnixContributorCode::D99 => "d99",
            OnixContributorCode::E01 => "e01",
            OnixContributorCode::E02 => "e02",
            OnixContributorCode::E03 => "e03",
            OnixContributorCode::E04 => "e04",
            OnixContributorCode::E05 => "e05",
            OnixContributorCode::E06 => "e06",
            OnixContributorCode::E07 => "e07",
            OnixContributorCode::E08 => "e08",
            OnixContributorCode::E09 => "e09",
            OnixContributorCode::E10 => "e10",
            OnixContributorCode::E99 => "e99",
            OnixContributorCode::F01 => "f01",
            OnixContributorCode::F02 => "f02",
            OnixContributorCode::F99 => "f99",
            OnixContributorCode::Z01 => "z01",
            OnixContributorCode::Z02 => "z02",
            OnixContributorCode::Z98 => "z98",
            OnixContributorCode::Z99 => "z99",
        }
    }
}

/// The role that a code stands for, among those from `a01` to `a20`.
pub open spec fn contributor_code_named_from_a01(s: Seq<char>) -> Option<OnixContributorCode> {
    if s == "a01"@ || s == "A01"@ {
        Some(OnixContributorCode::A01)
    } else if s == "a02"@ || s == "A02"@ {
        Some(OnixContributorCode::A02)
    } else if s == "a03"@ || s == "A03"@ {
        Some(OnixContributorCode::A03)
    } else if s == "a04"@ || s == "A04"@ {
        Some(OnixContributorCode::A04)
    } else if s == "a05"@ || s == "A05"@ {
        Some(OnixContributorCode::A05)
    } else if s == "a06"@ || s == "A06"@ {
        Some(OnixContributorCode::A06)
    } else if s == "a07"@ || s == "A07"@ {
        Some(OnixContributorCode::A07)
    } else if s == "a08"@ || s == "A08"@ {
        Some(OnixContributorCode::A08)
    } else if s == "a09"@ || s == "A09"@ {
        Some(OnixContributorCode::A09)
    } else if s == "a10"@ || s == "A10"@ {
        Some(OnixContributorCode::A10)
    } else if s == "a11"@ || s == "A11"@ {
        Some(OnixContributorCode::A11)
    } else if s == "a12"@ || s == "A12"@ {
        Some(OnixContributorCode::A12)
    } else if s == "a13"@ || s == "A13"@ {
        Some(OnixContributorCode::A13)
    } else if s == "a14"@ || s == "A14"@ {
        Some(OnixContributorCode::A14)
    } else if s == "a15"@ || s == "A15"@ {
        Some(OnixContributorCode::A15)
    } else if s == "a16"@ || s == "A16"@ {
        Some(OnixContributorCode::A16)
    } else if s == "a17"@ || s == "A17"@ {
        Some(OnixContributorCode::A17)
    } else if s == "a18"@ || s == "A18"@ {
        Some(OnixContributorCode::A18)
    } else if s == "a19"@ || s == "A19"@ {
        Some(OnixContributorCode::A19)
    } else if s == "a20"@ || s == "A20"@ {
        Some(OnixContributorCode::A20)
    } else {
        None
    }
}

/// The role that a code stands for, among those from `a21` to `a41`.
pub open spec fn contributor_code_named_from_a21(s: Seq<char>) -> Option<OnixContributorCode> {
    if s == "a21"@ || s == "A21"@ {
        Some(OnixContributorCode::A21)
    } else if s == "a22"@ || s == "A22"@ {
        Some(OnixContributorCode::A22)
    } else if s == "a23"@ || s == "A23"@ {
        Some(OnixContributorCode::A23)
    } else if s == "a24"@ || s == "A24"@ {
        Some(OnixContributorCode::A24)
    } else if s == "a25"@ || s == "A25"@ {
        Some(OnixContributorCode::A25)
    } else if s == "a26"@ || s == "A26"@ {
        Some(OnixContributorCode::A26)
    } else if s == "a27"@ || s == "A27"@ {
        Some(OnixContributorCode::A27)
    } else if s == "a29"@ || s == "A29"@ {
        Some(OnixContributorCode::A29)
    } else if s == "a30"@ || s == "A30"@ {
        Some(OnixContributorCode::A30)
    } else if s == "a31"@ || s == "A31"@ {
        Some(OnixContributorCode::A31)
    } else if s == "a32"@ || s == "A32"@ {
        Some(OnixContributorCode::A32)
    } else if s == "a33"@ || s == "A33"@ {
        Some(OnixContributorCode::A33)
    } else if s == "a34"@ || s == "A34"@ {
        Some(OnixContributorCode::A34)
    } else if s == "a35"@ || s == "A35"@ {
        Some(OnixContributorCode::A35)
    } else if s == "a36"@ || s == "A36"@ {
        Some(OnixContributorCode::A36)
    } else if s == "a37"@ || s == "A37"@ {
        Some(OnixContributorCode::A37)
    } else if s == "a38"@ || s == "A38"@ {
        Some(OnixContributorCode::A38)
    } else if s == "a39"@ || s == "A39"@ {
        Some(OnixContributorCode::A39)
    } else if s == "a40"@ || s == "A40"@ {
        Some(OnixContributorCode::A40)
    } else if s == "a41"@ || s == "A41"@ {
        Some(OnixContributorCode::A41)
    } else {
        None
    }
}

/// The role that a code stands for, among those from `a42` to `b11`.
pub open spec fn contributor_code_named_from_a42(s: Seq<char>) -> Option<OnixContributorCode> {
    if s == "a42"@ || s == "A42"@ {
        Some(OnixContributorCode::A42)
    } else if s == "a43"@ || s == "A43"@ {
        Some(OnixContributorCode::A43)
    } else if s == "a44"@ || s == "A44"@ {
        Some(OnixContributorCode::A44)
    } else if s == "a45"@ || s == "A45"@ {
        Some(OnixContributorCode::A45)
    } else if s == "a46"@ || s == "A46"@ {
        Some(OnixContributorCode::A46)
    } else if s == "a47"@ || s == "A47"@ {
        Some(OnixContributorCode::A47)
    } else if s == "a48"@ || s == "A48"@ {
        Some(OnixContributorCode::A48)
    } else if s == "a51"@ || s == "A51"@ {
        Some(OnixContributorCode::A51)
    } else if s == "a99"@ || s == "A99"@ {
        Some(OnixContributorCode::A99)
    } else if s == "b01"@ || s == "B01"@ {
        Some(OnixContributorCode::B01)
    } else if s == "b02"@ || s == "B02"@ {
        Some(OnixContributorCode::B02)
    } else if s == "b03"@ || s == "B03"@ {
        Some(OnixContributorCode::B03)
    } else if s == "b04"@ || s == "B04"@ {
        Some(OnixContributorCode::B04)
    } else if s == "b05"@ || s == "B05"@ {
        Some(OnixContributorCode::B05)
    } else if s == "b06"@ || s == "B06"@ {
        Some(OnixContributorCode::B06)
    } else if s == "b07"@ || s == "B07"@ {
        Some(OnixContributorCode::B07)
    } else if s == "b08"@ || s == "B08"@ {
        Some(OnixContributorCode::B08)
    } else if s == "b09"@ || s == "B09"@ {
        Some(OnixContributorCode::B09)
    } else if s == "b10"@ || s == "B10"@ {
        Some(OnixContributorCode::B10)
    } else if s == "b11"@ || s == "B11"@ {
        Some(OnixContributorCode::B11)
    } else {
        None
    }
}

/// The role that a code stands for, among those from `b12` to `b31`.
pub open spec fn contributor_code_named_from_b12(s: Seq<char>) -> Option<OnixContributorCode> {
    if s == "b12"@ || s == "B12"@ {
        Some(OnixContributorCode::B12)
    } else if s == "b13"@ || s == "B13"@ {
        Some(OnixContributorCode::B13)
    } else if s == "b14"@ || s == "B14"@ {
        Some(OnixContributorCode::B14)
    } else if s == "b15"@ || s == "B15"@ {
        Some(OnixContributorCode::B15)
    } else if s == "b16"@ || s == "B16"@ {
        Some(OnixContributorCode::B16)
    } else if s == "b17"@ || s == "B17"@ {
        Some(OnixContributorCode::B17)
    } else if s == "b18"@ || s == "B18"@ {
        Some(OnixContributorCode::B18)
    } else if s == "b19"@ || s == "B19"@ {
        Some(OnixContributorCode::B19)
    } else if s == "b20"@ || s == "B20"@ {
        Some(OnixContributorCode::B20)
    } else if s == "b21"@ || s == "B21"@ {
        Some(OnixContributorCode::B21)
    } else if s == "b22"@ || s == "B22"@ {
        Some(OnixContributorCode::B22)
    } else if s == "b23"@ || s == "B23"@ {
        Some(OnixContributorCode::B23)
    } else if s == "b24"@ || s == "B24"@ {
        Some(OnixContributorCode::B24)
    } else if s == "b25"@ || s == "B25"@ {
        Some(OnixContributorCode::B25)
    } else if s == "b26"@ || s == "B26"@ {
        Some(OnixContributorCode::B26)
    } else if s == "b27"@ || s == "B27"@ {
        Some(OnixContributorCode::B27)
    } else if s == "b28"@ || s == "B28"@ {
        Some(OnixContributorCode::B28)
    } else if s == "b29"@ || s == "B29"@ {
        Some(OnixContributorCode::B29)
    } else if s == "b30"@ || s == "B30"@ {
        Some(OnixContributorCode::B30)
    } else if s == "b31"@ || s == "B31"@ {
        Some(OnixContributorCode::B31)
    } else {
        None
    }
}

/// The role that a code stands for, among those from `b99` to `e09`.
pub open spec fn contributor_code_named_from_b99(s: Seq<char>) -> Option<OnixContributorCode> {
    if s == "b99"@ || s == "B99"@ {
        Some(OnixContributorCode::B99)
    } else if s == "c01"@ || s == "C01"@ {
        Some(OnixContributorCode::C01)
    } else if s == "c02"@ || s == "C02"@ {
        Some(OnixContributorCode::C02)
    } else if s == "c03"@ || s == "C03"@ {
        Some(OnixContributorCode::C03)
    } else if s == "c04"@ || s == "C04"@ {
        Some(OnixContributorCode::C04)
    } else if s == "c99"@ || s == "C99"@ {
        Some(OnixContributorCode::C99)
    } else if s == "d01"@ || s == "D01"@ {
        Some(OnixContributorCode::D01)
    } else if s == "d02"@ || s == "D02"@ {
        Some(OnixContributorCode::D02)
    } else if s == "d03"@ || s == "D03"@ {
        Some(OnixContributorCode::D03)
    } else if s == "d04"@ || s == "D04"@ {
        Some(OnixContributorCode::D04)
    } else if s == "d99"@ || s == "D99"@ {
        Some(OnixContributorCode::D99)
    } else if s == "e01"@ || s == "E01"@ {
        Some(OnixContributorCode::E01)
    } else if s == "e02"@ || s == "E02"@ {
        Some(OnixContributorCode::E02)
    } else if s == "e03"@ || s == "E03"@ {
        Some(OnixContributorCode::E03)
    } else if s == "e04"@ || s == "E04"@ {
        Some(OnixContributorCode::E04)
    } else if s == "e05"@ || s == "E05"@ {
        Some(OnixContributorCode::E05)
    } else if s == "e06"@ || s == "E06"@ {
        Some(OnixContributorCode::E06)
    } else if s == "e07"@ || s == "E07"@ {
        Some(OnixContributorCode::E07)
    } else if s == "e08"@ || s == "E08"@ {
        Some(OnixContributorCode::E08)
    } else if s == "e09"@ || s == "E09"@ {
        Some(OnixContributorCode::E09)
    } else {
        None
    }
}

/// The role that a code stands for, among those from `e10` to `z99`.
pub open spec fn contributor_code_named_from_e10(s: Seq<char>) -> Option<OnixContributorCode> {
    if s == "e10"@ || s == "E10"@ {
        Some(OnixContributorCode::E10)
    } else if s == "e99"@ || s == "E99"@ {
        Some(OnixContributorCode::E99)
    } else if s == "f01"@ || s == "F01"@ {
        Some(OnixContributorCode::F01)
    } else if s == "f02"@ || s == "F02"@ {
        Some(OnixContributorCode::F02)
    } else if s == "f99"@ || s == "F99"@ {
        Some(OnixContributorCode::F99)
    } else if s == "z01"@ || s == "Z01"@ {
        Some(OnixContributorCode::Z01)
    } else if s == "z02"@ || s == "Z02"@ {
        Some(OnixContributorCode::Z02)
    } else if s == "z98"@ || s == "Z98"@ {
        Some(OnixContributorCode::Z98)
    } else if s == "z99"@ || s == "Z99"@ {
        Some(OnixContributorCode::Z99)
    } else {
        None
    }
}

/// The role that a code stands for.
pub open spec fn contributor_code_named(s: Seq<char>) -> Option<OnixContributorCode> {
    if contributor_code_named_from_a01(s) is Some {
        contributor_code_named_from_a01(s)
    } else if contributor_code_named_from_a21(s) is Some {
        contributor_code_named_from_a21(s)
    } else if contributor_code_named_from_a42(s) is Some {
        contributor_code_named_from_a42(s)
    } else if contributor_code_named_from_b12(s) is Some {
        contributor_code_named_from_b12(s)
    } else if contributor_code_named_from_b99(s) is Some {
        contributor_code_named_from_b99(s)
    } else {
        contributor_code_named_from_e10(s)
    }
}

fn read_contributor_code_named_from_a01(s: &str) -> (r: Option<OnixContributorCode>)
    ensures
        r == contributor_code_named_from_a01(s@),
{
    if str_eq(s, "a01") || str_eq(s, "A01") {
        Some(OnixContributorCode::A01)
    } else if str_eq(s, "a02") || str_eq(s, "A02") {
        Some(OnixContributorCode::A02)
    } else if str_eq(s, "a03") || str_eq(s, "A03") {
        Some(OnixContributorCode::A03)
    } else if str_eq(s, "a04") || str_eq(s, "A04") {
        Some(OnixContributorCode::A04)
    } else if str_eq(s, "a05") || str_eq(s, "A05") {
        Some(OnixContributorCode::A05)
    } else if str_eq(s, "a06") || str_eq(s, "A06") {
        Some(OnixContributorCode::A06)
    } else if str_eq(s, "a07") || str_eq(s, "A07") {
        Some(OnixContributorCode::A07)
    } else if str_eq(s, "a08") || str_eq(s, "A08") {
        Some(OnixContributorCode::A08)
    } else if str_eq(s, "a09") || str_eq(s, "A09") {
        Some(OnixContributorCode::A09)
    } else if str_eq(s, "a10") || str_eq(s, "A10") {
        Some(OnixContributorCode::A10)
    } else if str_eq(s, "a11") || str_eq(s, "A11") {
        Some(OnixContributorCode::A11)
    } else if str_eq(s, "a12") || str_eq(s, "A12") {
        Some(OnixContributorCode::A12)
    } else if str_eq(s, "a13") || str_eq(s, "A13") {
        Some(OnixContributorCode::A13)
    } else if str_eq(s, "a14") || str_eq(s, "A14") {
        Some(OnixContributorCode::A14)
    } else if str_eq(s, "a15") || str_eq(s, "A15") {
        Some(OnixContributorCode::A15)
    } else if str_eq(s, "a16") || str_eq(s, "A16") {
        Some(OnixContributorCode::A16)
    } else if str_eq(s, "a17") || str_eq(s, "A17") {
        Some(OnixContributorCode::A17)
    } else if str_eq(s, "a18") || str_eq(s, "A18") {
        Some(OnixContributorCode::A18)
    } else if str_eq(s, "a19") || str_eq(s, "A19") {
        Some(OnixContributorCode::A19)
    } else if str_eq(s, "a20") || str_eq(s, "A20") {
        Some(OnixContributorCode::A20)
    } else {
        None
    }
}

fn read_contributor_code_named_from_a21(s: &str) -> (r: Option<OnixContributorCode>)
    ensures
        r == contributor_code_named_from_a21(s@),
{
    if str_eq(s, "a21") || str_eq(s, "A21") {
        Some(OnixContributorCode::A21)
    } else if str_eq(s, "a22") || str_eq(s, "A22") {
        Some(OnixContributorCode::A22)
    } else if str_eq(s, "a23") || str_eq(s, "A23") {
        Some(OnixContributorCode::A23)
    } else if str_eq(s, "a24") || str_eq(s, "A24") {
        Some(OnixContributorCode::A24)
    } else if str_eq(s, "a25") || str_eq(s, "A25") {
        Some(OnixContributorCode::A25)
    } else if str_eq(s, "a26") || str_eq(s, "A26") {
        Some(OnixContributorCode::A26)
    } else if str_eq(s, "a27") || str_eq(s, "A27") {
        Some(OnixContributorCode::A27)
    } else if str_eq(s, "a29") || str_eq(s, "A29") {
        Some(OnixContributorCode::A29)
    } else if str_eq(s, "a30") || str_eq(s, "A30") {
        Some(OnixContributorCode::A30)
    } else if str_eq(s, "a31") || str_eq(s, "A31") {
        Some(OnixContributorCode::A31)
    } else if str_eq(s, "a32") || str_eq(s, "A32") {
        Some(OnixContributorCode::A32)
    } else if str_eq(s, "a33") || str_eq(s, "A33") {
        Some(OnixContributorCode::A33)
    } else if str_eq(s, "a34") || str_eq(s, "A34") {
        Some(OnixContributorCode::A34)
    } else if str_eq(s, "a35") || str_eq(s, "A35") {
        Some(OnixContributorCode::A35)
    } else if str_eq(s, "a36") || str_eq(s, "A36") {
        Some(OnixContributorCode::A36)
    } else if str_eq(s, "a37") || str_eq(s, "A37") {
        Some(OnixContributorCode::A37)
    } else if str_eq(s, "a38") || str_eq(s, "A38") {
        Some(OnixContributorCode::A38)
    } else if str_eq(s, "a39") || str_eq(s, "A39") {
        Some(OnixContributorCode::A39)
    } else if str_eq(s, "a40") || str_eq(s, "A40") {
        Some(OnixContributorCode::A40)
    } else if str_eq(s, "a41") || str_eq(s, "A41") {
        Some(OnixContributorCode::A41)
    } else {
        None
    }
}

fn read_contributor_code_named_from_a42(s: &str) -> (r: Option<OnixContributorCode>)
    ensures
        r == contributor_code_named_from_a42(s@),
{
    if str_eq(s, "a42") || str_eq(s, "A42") {
        Some(OnixContributorCode::A42)
    } else if str_eq(s, "a43") || str_eq(s, "A43") {
        Some(OnixContributorCode::A43)
    } else if str_eq(s, "a44") || str_eq(s, "A44") {
        Some(OnixContributorCode::A44)
    } else if str_eq(s, "a45") || str_eq(s, "A45") {
        Some(OnixContributorCode::A45)
    } else if str_eq(s, "a46") || str_eq(s, "A46") {
        Some(OnixContributorCode::A46)
    } else if str_eq(s, "a47") || str_eq(s, "A47") {
        Some(OnixContributorCode::A47)
    } else if str_eq(s, "a48") || str_eq(s, "A48") {
        Some(OnixContributorCode::A48)
    } else if str_eq(s, "a51") || str_eq(s, "A51") {
        Some(OnixContributorCode::A51)
    } else if str_eq(s, "a99") || str_eq(s, "A99") {
        Some(OnixContributorCode::A99)
    } else if str_eq(s, "b01") || str_eq(s, "B01") {
        Some(OnixContributorCode::B01)
    } else if str_eq(s, "b02") || str_eq(s, "B02") {
        Some(OnixContributorCode::B02)
    } else if str_eq(s, "b03") || str_eq(s, "B03") {
        Some(OnixContributorCode::B03)
    } else if str_eq(s, "b04") || str_eq(s, "B04") {
        Some(OnixContributorCode::B04)
    } else if str_eq(s, "b05") || str_eq(s, "B05") {
        Some(OnixContributorCode::B05)
    } else if str_eq(s, "b06") || str_eq(s, "B06") {
        Some(OnixContributorCode::B06)
    } else if str_eq(s, "b07") || str_eq(s, "B07") {
        Some(OnixContributorCode::B07)
    } else if str_eq(s, "b08") || str_eq(s, "B08") {
        Some(OnixContributorCode::B08)
    } else if str_eq(s, "b09") || str_eq(s, "B09") {
        Some(OnixContributorCode::B09)
    } else if str_eq(s, "b10") || str_eq(s, "B10") {
        Some(OnixContributorCode::B10)
    } else if str_eq(s, "b11") || str_eq(s, "B11") {
        Some(OnixContributorCode::B11)
    } else {
        None
    }
}

fn read_contributor_code_named_from_b12(s: &str) -> (r: Option<OnixContributorCode>)
    ensures
        r == contributor_code_named_from_b12(s@),
{
    if str_eq(s, "b12") || str_eq(s, "B12") {
        Some(OnixContributorCode::B12)
    } else if str_eq(s, "b13") || str_eq(s, "B13") {
        Some(OnixContributorCode::B13)
    } else if str_eq(s, "b14") || str_eq(s, "B14") {
        Some(OnixContributorCode::B14)
    } else if str_eq(s, "b15") || str_eq(s, "B15") {
        Some(OnixContributorCode::B15)
    } else if str_eq(s, "b16") || str_eq(s, "B16") {
        Some(OnixContributorCode::B16)
    } else if str_eq(s, "b17") || str_eq(s, "B17") {
        Some(OnixContributorCode::B17)
    } else if str_eq(s, "b18") || str_eq(s, "B18") {
        Some(OnixContributorCode::B18)
    } else if str_eq(s, "b19") || str_eq(s, "B19") {
        Some(OnixContributorCode::B19)
    } else if str_eq(s, "b20") || str_eq(s, "B20") {
        Some(OnixContributorCode::B20)
    } else if str_eq(s, "b21") || str_eq(s, "B21") {
        Some(OnixContributorCode::B21)
    } else if str_eq(s, "b22") || str_eq(s, "B22") {
        Some(OnixContributorCode::B22)
    } else if str_eq(s, "b23") || str_eq(s, "B23") {
        Some(OnixContributorCode::B23)
    } else if str_eq(s, "b24") || str_eq(s, "B24") {
        Some(OnixContributorCode::B24)
    } else if str_eq(s, "b25") || str_eq(s, "B25") {
        Some(OnixContributorCode::B25)
    } else if str_eq(s, "b26") || str_eq(s, "B26") {
        Some(OnixContributorCode::B26)
    } else if str_eq(s, "b27") || str_eq(s, "B27") {
        Some(OnixContributorCode::B27)
    } else if str_eq(s, "b28") || str_eq(s, "B28") {
        Some(OnixContributorCode::B28)
    } else if str_eq(s, "b29") || str_eq(s, "B29") {
        Some(OnixContributorCode::B29)
    } else if str_eq(s, "b30") || str_eq(s, "B30") {
        Some(OnixContributorCode::B30)
    } else if str_eq(s, "b31") || str_eq(s, "B31") {
        Some(OnixContributorCode::B31)
    } else {
        None
    }
}

fn read_contributor_code_named_from_b99(s: &str) -> (r: Option<OnixContributorCode>)
    ensures
        r == contributor_code_named_from_b99(s@),
{
    if str_eq(s, "b99") || str_eq(s, "B99") {
        Some(OnixContributorCode::B99)
    } else if str_eq(s, "c01") || str_eq(s, "C01") {
        Some(OnixContributorCode::C01)
    } else if str_eq(s, "c02") || str_eq(s, "C02") {
        Some(OnixContributorCode::C02)
    } else if str_eq(s, "c03") || str_eq(s, "C03") {
        Some(OnixContributorCode::C03)
    } else if str_eq(s, "c04") || str_eq(s, "C04") {
        Some(OnixContributorCode::C04)
    } else if str_eq(s, "c99") || str_eq(s, "C99") {
        Some(OnixContributorCode::C99)
    } else if str_eq(s, "d01") || str_eq(s, "D01") {
        Some(OnixContributorCode::D01)
    } else if str_eq(s, "d02") || str_eq(s, "D02") {
        Some(OnixContributorCode::D02)
    } else if str_eq(s, "d03") || str_eq(s, "D03") {
        Some(OnixContributorCode::D03)
    } else if str_eq(s, "d04") || str_eq(s, "D04") {
        Some(OnixContributorCode::D04)
    } else if str_eq(s, "d99") || str_eq(s, "D99") {
        Some(OnixContributorCode::D99)
    } else if str_eq(s, "e01") || str_eq(s, "E01") {
        Some(OnixContributorCode::E01)
    } else if str_eq(s, "e02") || str_eq(s, "E02") {
        Some(OnixContributorCode::E02)
    } else if str_eq(s, "e03") || str_eq(s, "E03") {
        Some(OnixContributorCode::E03)
    } else if str_eq(s, "e04") || str_eq(s, "E04") {
        Some(OnixContributorCode::E04)
    } else if str_eq(s, "e05") || str_eq(s, "E05") {
        Some(OnixContributorCode::E05)
    } else if str_eq(s, "e06") || str_eq(s, "E06") {
        Some(OnixContributorCode::E06)
    } else if str_eq(s, "e07") || str_eq(s, "E07") {
        Some(OnixContributorCode::E07)
    } else if str_eq(s, "e08") || str_eq(s, "E08") {
        Some(OnixContributorCode::E08)
    } else if str_eq(s, "e09") || str_eq(s, "E09") {
        Some(OnixContributorCode::E09)
    } else {
        None
    }
}

fn read_contributor_code_named_from_e10(s: &str) -> (r: Option<OnixContributorCode>)
    ensures
        r == contributor_code_named_from_e10(s@),
{
    if str_eq(s, "e10") || str_eq(s, "E10") {
        Some(OnixContributorCode::E10)
    } else if str_eq(s, "e99") || str_eq(s, "E99") {
        Some(OnixContributorCode::E99)
    } else if str_eq(s, "f01") || str_eq(s, "F01") {
        Some(OnixContributorCode::F01)
    } else if str_eq(s, "f02") || str_eq(s, "F02") {
        Some(OnixContributorCode::F02)
    } else if str_eq(s, "f99") || str_eq(s, "F99") {
        Some(OnixContributorCode::F99)
    } else if str_eq(s, "z01") || str_eq(s, "Z01") {
        Some(OnixContributorCode::Z01)
    } else if str_eq(s, "z02") || str_eq(s, "Z02") {
        Some(OnixContributorCode::Z02)
    } else if str_eq(s, "z98") || str_eq(s, "Z98") {
        Some(OnixContributorCode::Z98)
    } else if str_eq(s, "z99") || str_eq(s, "Z99") {
        Some(OnixContributorCode::Z99)
    } else {
        None
    }
}

impl OnixContributorCode {
    /// Reads a role from its code.
    pub fn from_str(s: &str) -> (r: Result<Self, ()>)
        ensures
            match contributor_code_named(s@) {
                Some(v) => r == Ok::<Self, ()>(v),
                None => r is Err,
            },
    {
        match read_contributor_code_named_from_a01(s) {
            Some(v) => {
                return Ok(v);
            },
            None => {},
        }
        match read_contributor_code_named_from_a21(s) {
            Some(v) => {
                return Ok(v);
            },
            None => {},
        }
        match read_contributor_code_named_from_a42(s) {
            Some(v) => {
                return Ok(v);
            },
            None => {},
        }
        match read_contributor_code_named_from_b12(s) {
            Some(v) => {
                return Ok(v);
            },
            None => {},
        }
        match read_contributor_code_named_from_b99(s) {
            Some(v) => {
                return Ok(v);
            },
            None => {},
        }
        match read_contributor_code_named_from_e10(s) {
            Some(v) => {
                return Ok(v);
            },
            None => {},
        }
        Err(())
    }
}

/// The kinds of text about a product, from the ONIX list.
#[derive(Debug, PartialEq, Eq, Structural, Clone, Copy, Hash)]
pub enum OnixTextType {
    /// Sender-defined text.
    T01,
    /// Short description/annotation.
    T02,
    /// Description.
    T03,
    /// Table of contents.
    T04,
    /// Flap / cover copy.
    T05,
    /// Quote from the press.
    T06,
    /// Quote from the press.
    T07,
    /// Quote from the press.
    T08,
    /// Endorsement.
    T09,
    /// Promotional headline.
    T10,
    /// Feature.
    T11,
    /// Biographical note.
    T12,
    /// Publisher's notice.
    T13,
    /// Excerpt.
    T14,
    /// Index.
    T15,
    /// Short description/annotation for collection.
    T16,
    /// Description for collection.
    T17,
    /// New feature.
    T18,
    /// Version history.
    T19,
    /// Open access statement.
    T20,
    /// Digital exclusivity statement.
    T21,
    /// Official recommendation.
    T22,
    /// JBPA description.
    T23,
    /// schema.org snippet.
    T24,
    /// Errata.
    T25,
    /// Introduction.
    T26,
    /// Secondary flap / cover copy.
    T27,
    /// Full cast and credit list.
    T28,
    /// Bibliography.
    T29,
    /// Abstract.
    T30,
    /// Rules or instructions.
    T31,
}

/// A code of one list that another list can say too.
pub trait ValueMapping<T> {
    /// What this code is in the other list, where that list has it.
    spec fn mapped(&self) -> Option<T>;

    /// What this code is in the other list, where that list has it.
    fn map_code(&self) -> (r: Option<T>)
        ensures
            r == self.mapped(),
    ;
}

impl ValueMapping<EpubTitleType> for OnixTitleCode {
    open spec fn mapped(&self) -> Option<EpubTitleType> {
        match self {
            OnixTitleCode::T05 => Some(EpubTitleType::Short),
            OnixTitleCode::T13 => Some(EpubTitleType::Expanded),
            OnixTitleCode::T01 => Some(EpubTitleType::Main),
            _ => None,
        }
    }

    fn map_code(&self) -> (r: Option<EpubTitleType>) {
        match self {
            OnixTitleCode::T05 => Some(EpubTitleType::Short),
            OnixTitleCode::T13 => Some(EpubTitleType::Expanded),
            OnixTitleCode::T01 => Some(EpubTitleType::Main),
            _ => None,
        }
    }
}

impl ValueMapping<MarcRelator> for OnixContributorCode {
    open spec fn mapped(&self) -> Option<MarcRelator> {
        match self {
            OnixContributorCode::A01 => Some(MarcRelator::Aut),
            OnixContributorCode::A02 => Some(MarcRelator::Ctb),
            OnixContributorCode::A03 => Some(MarcRelator::Aus),
            OnixContributorCode::A04 => Some(MarcRelator::Lbt),
            OnixContributorCode::A05 => Some(MarcRelator::Lyr),
            OnixContributorCode::A06 => Some(MarcRelator::Cmp),
            OnixContributorCode::A07 => Some(MarcRelator::Art),
            OnixContributorCode::A08 => Some(MarcRelator::Pht),
            OnixContributorCode::A09 => Some(MarcRelator::Cre),
            OnixContributorCode::A10 => Some(MarcRelator::Cre),
            OnixContributorCode::A11 => Some(MarcRelator::Dsr),
            OnixContributorCode::A12 => Some(MarcRelator::Ill),
            OnixContributorCode::A13 => Some(MarcRelator::Pht),
            OnixContributorCode::A14 => Some(MarcRelator::Ctb),
            OnixContributorCode::A15 => Some(MarcRelator::Aui),
            OnixContributorCode::A16 => Some(MarcRelator::Aui),
            OnixContributorCode::A17 => Some(MarcRelator::Ctb),
            OnixContributorCode::A18 => Some(MarcRelator::Ctb),
            OnixContributorCode::A19 => Some(MarcRelator::Aft),
            OnixContributorCode::A20 => Some(MarcRelator::Ctb),
            OnixContributorCode::A21 => Some(MarcRelator::Cwt),
            OnixContributorCode::A22 => Some(MarcRelator::Aft),
            OnixContributorCode::A23 => Some(MarcRelator::Aui),
            OnixContributorCode::A24 => Some(MarcRelator::Aui),
            OnixContributorCode::A25 => Some(MarcRelator::Ctb),
            OnixContributorCode::A27 => Some(MarcRelator::Ctb),
            OnixContributorCode::A29 => Some(MarcRelator::Aui),
            OnixContributorCode::A30 => Some(MarcRelator::Prg),
            OnixContributorCode::A31 => Some(MarcRelator::Lyr),
            OnixContributorCode::A32 => Some(MarcRelator::Ctb),
            OnixContributorCode::A34 => Some(MarcRelator::Ctb),
            OnixContributorCode::A35 => Some(MarcRelator::Ill),
            OnixContributorCode::A36 => Some(MarcRelator::Cov),
            OnixContributorCode::A37 => Some(MarcRelator::Ant),
            OnixContributorCode::A38 => Some(MarcRelator::Aut),
            OnixContributorCode::A39 => Some(MarcRelator::Ctg),
            OnixContributorCode::A40 => Some(MarcRelator::Ill),
            OnixContributorCode::A43 => Some(MarcRelator::Ivr),
            OnixContributorCode::A44 => Some(MarcRelator::Ive),
            OnixContributorCode::A99 => Some(MarcRelator::Cre),
            OnixContributorCode::B01 => Some(MarcRelator::Edt),
            OnixContributorCode::B02 => Some(MarcRelator::Edt),
            OnixContributorCode::B03 => Some(MarcRelator::Nrt),
            OnixContributorCode::B04 => Some(MarcRelator::Edt),
            OnixContributorCode::B05 => Some(MarcRelator::Adp),
            OnixContributorCode::B06 => Some(MarcRelator::Trl),
            OnixContributorCode::B07 => Some(MarcRelator::Nrt),
            OnixContributorCode::B08 => Some(MarcRelator::Trl),
            OnixContributorCode::B09 => Some(MarcRelator::Edt),
            OnixContributorCode::B10 => Some(MarcRelator::Trl),
            OnixContributorCode::B11 => Some(MarcRelator::Pbd),
            OnixContributorCode::B12 => Some(MarcRelator::Edt),
            OnixContributorCode::B13 => Some(MarcRelator::Edt),
            OnixContributorCode::B14 => Some(MarcRelator::Edt),
            OnixContributorCode::B15 => Some(MarcRelator::Edt),
            OnixContributorCode::B16 => Some(MarcRelator::Edt),
            OnixContributorCode::B18 => Some(MarcRelator::Pbl),
            OnixContributorCode::B19 => Some(MarcRelator::Edt),
            OnixContributorCode::B20 => Some(MarcRelator::Edt),
            OnixContributorCode::B21 => Some(MarcRelator::Edt),
            OnixContributorCode::B23 => Some(MarcRelator::Edt),
            OnixContributorCode::B24 => Some(MarcRelator::Edt),
            OnixContributorCode::B25 => Some(MarcRelator::Arr),
            OnixContributorCode::B99 => Some(MarcRelator::Adp),
            OnixContributorCode::C01 => Some(MarcRelator::Com),
            OnixContributorCode::C02 => Some(MarcRelator::Com),
            OnixContributorCode::C99 => Some(MarcRelator::Com),
            OnixContributorCode::D01 => Some(MarcRelator::Pro),
            OnixContributorCode::D02 => Some(MarcRelator::Drt),
            OnixContributorCode::D03 => Some(MarcRelator::Cnd),
            OnixContributorCode::D99 => Some(MarcRelator::Drt),
            OnixContributorCode::E01 => Some(MarcRelator::Act),
            OnixContributorCode::E02 => Some(MarcRelator::Dnc),
            OnixContributorCode::E03 => Some(MarcRelator::Nrt),
            OnixContributorCode::E04 => Some(MarcRelator::Cmm),
            OnixContributorCode::E05 => Some(MarcRelator::Sng),
            OnixContributorCode::E06 => Some(MarcRelator::Itr),
            OnixContributorCode::E07 => Some(MarcRelator::Nrt),
            OnixContributorCode::E08 => Some(MarcRelator::Prf),
            OnixContributorCode::E99 => Some(MarcRelator::Prf),
            OnixContributorCode::F01 => Some(MarcRelator::Pht),
            _ => None,
        }
    }

    fn map_code(&self) -> (r: Option<MarcRelator>) {
        match self {
            OnixContributorCode::A01 => Some(MarcRelator::Aut),
            OnixContributorCode::A02 => Some(MarcRelator::Ctb),
            OnixContributorCode::A03 => Some(MarcRelator::Aus),
            OnixContributorCode::A04 => Some(MarcRelator::Lbt),
            OnixContributorCode::A05 => Some(MarcRelator::Lyr),
            OnixContributorCode::A06 => Some(MarcRelator::Cmp),
            OnixContributorCode::A07 => Some(MarcRelator::Art),
            OnixContributorCode::A08 => Some(MarcRelator::Pht),
            OnixContributorCode::A09 => Some(MarcRelator::Cre),
            OnixContributorCode::A10 => Some(MarcRelator::Cre),
            OnixContributorCode::A11 => Some(MarcRelator::Dsr),
            OnixContributorCode::A12 => Some(MarcRelator::Ill),
            OnixContributorCode::A13 => Some(MarcRelator::Pht),
            OnixContributorCode::A14 => Some(MarcRelator::Ctb),
            OnixContributorCode::A15 => Some(MarcRelator::Aui),
            OnixContributorCode::A16 => Some(MarcRelator::Aui),
            OnixContributorCode::A17 => Some(MarcRelator::Ctb),
            OnixContributorCode::A18 => Some(MarcRelator::Ctb),
            OnixContributorCode::A19 => Some(MarcRelator::Aft),
            OnixContributorCode::A20 => Some(MarcRelator::Ctb),
            OnixContributorCode::A21 => Some(MarcRelator::Cwt),
            OnixContributorCode::A22 => Some(MarcRelator::Aft),
            OnixContributorCode::A23 => Some(MarcRelator::Aui),
            OnixContributorCode::A24 => Some(MarcRelator::Aui),
            OnixContributorCode::A25 => Some(MarcRelator::Ctb),
            OnixContributorCode::A27 => Some(MarcRelator::Ctb),
            OnixContributorCode::A29 => Some(MarcRelator::Aui),
            OnixContributorCode::A30 => Some(MarcRelator::Prg),
            OnixContributorCode::A31 => Some(MarcRelator::Lyr),
            OnixContributorCode::A32 => Some(MarcRelator::Ctb),
            OnixContributorCode::A34 => Some(MarcRelator::Ctb),
            OnixContributorCode::A35 => Some(MarcRelator::Ill),
            OnixContributorCode::A36 => Some(MarcRelator::Cov),
            OnixContributorCode::A37 => Some(MarcRelator::Ant),
            OnixContributorCode::A38 => Some(MarcRelator::Aut),
            OnixContributorCode::A39 => Some(MarcRelator::Ctg),
            OnixContributorCode::A40 => Some(MarcRelator::Ill),
            OnixContributorCode::A43 => Some(MarcRelator::Ivr),
            OnixContributorCode::A44 => Some(MarcRelator::Ive),
            OnixContributorCode::A99 => Some(MarcRelator::Cre),
            OnixContributorCode::B01 => Some(MarcRelator::Edt),
            OnixContributorCode::B02 => Some(MarcRelator::Edt),
            OnixContributorCode::B03 => Some(MarcRelator::Nrt),
            OnixContributorCode::B04 => Some(MarcRelator::Edt),
            OnixContributorCode::B05 => Some(MarcRelator::Adp),
            OnixContributorCode::B06 => Some(MarcRelator::Trl),
            OnixContributorCode::B07 => Some(MarcRelator::Nrt),
            OnixContributorCode::B08 => Some(MarcRelator::Trl),
            OnixContributorCode::B09 => Some(MarcRelator::Edt),
            OnixContributorCode::B10 => Some(MarcRelator::Trl),
            OnixContributorCode::B11 => Some(MarcRelator::Pbd),
            OnixContributorCode::B12 => Some(MarcRelator::Edt),
            OnixContributorCode::B13 => Some(MarcRelator::Edt),
            OnixContributorCode::B14 => Some(MarcRelator::Edt),
            OnixContributorCode::B15 => Some(MarcRelator::Edt),
            OnixContributorCode::B16 => Some(MarcRelator::Edt),
            OnixContributorCode::B18 => Some(MarcRelator::Pbl),
            OnixContributorCode::B19 => Some(MarcRelator::Edt),
            OnixContributorCode::B20 => Some(MarcRelator::Edt),
            OnixContributorCode::B21 => Some(MarcRelator::Edt),
            OnixContributorCode::B23 => Some(MarcRelator::Edt),
            OnixContributorCode::B24 => Some(MarcRelator::Edt),
            OnixContributorCode::B25 => Some(MarcRelator::Arr),
            OnixContributorCode::B99 => Some(MarcRelator::Adp),
            OnixContributorCode::C01 => Some(MarcRelator::Com),
            OnixContributorCode::C02 => Some(MarcRelator::Com),
            OnixContributorCode::C99 => Some(MarcRelator::Com),
            OnixContributorCode::D01 => Some(MarcRelator::Pro),
            OnixContributorCode::D02 => Some(MarcRelator::Drt),
            OnixContributorCode::D03 => Some(MarcRelator::Cnd),
            OnixContributorCode::D99 => Some(MarcRelator::Drt),
            OnixContributorCode::E01 => Some(MarcRelator::Act),
            OnixContributorCode::E02 => Some(MarcRelator::Dnc),
            OnixContributorCode::E03 => Some(MarcRelator::Nrt),
            OnixContributorCode::E04 => Some(MarcRelator::Cmm),
            OnixContributorCode::E05 => Some(MarcRelator::Sng),
            OnixContributorCode::E06 => Some(MarcRelator::Itr),
            OnixContributorCode::E07 => Some(MarcRelator::Nrt),
            OnixContributorCode::E08 => Some(MarcRelator::Prf),
            OnixContributorCode::E99 => Some(MarcRelator::Prf),
            OnixContributorCode::F01 => Some(MarcRelator::Pht),
            _ => None,
        }
    }
}

/// The role of a contributor, in one of the two lists.
#[derive(Debug, PartialEq, Eq, Structural, Clone, Copy, Hash)]
pub enum ContributorRole {
    /// A role of the ONIX list.
    Onix(OnixContributorCode),
    /// A relator of the MARC list.
    Marc(MarcRelator),
}

/// The role that a text stands for: a relator where it names one, else a
/// role of the ONIX list.
pub open spec fn role_named(s: Seq<char>) -> Option<ContributorRole> {
    match relator_named(s) {
        Some(m) => Some(ContributorRole::Marc(m)),
        None => match contributor_code_named(s) {
            Some(o) => Some(ContributorRole::Onix(o)),
            None => None,
        },
    }
}

impl ContributorRole {
    /// Reads a role from the name or the code of a relator, or from a code
    /// of the ONIX list.
    pub fn from_str(s: &str) -> (r: Result<Self, ()>)
        ensures
            match role_named(s@) {
                Some(v) => r == Ok::<Self, ()>(v),
                None => r is Err,
            },
    {
        if let Ok(m) = MarcRelator::from_str(s) {
            return Ok(ContributorRole::Marc(m));
        }
        if let Ok(o) = OnixContributorCode::from_str(s) {
            return Ok(ContributorRole::Onix(o));
        }
        Err(())
    }

    /// The relator that this role is or comes to, where there is one.
    pub open spec fn relator(self) -> Option<MarcRelator> {
        match self {
            ContributorRole::Marc(m) => Some(m),
            ContributorRole::Onix(o) => o.mapped(),
        }
    }
}

impl MarcRelator {
    /// The relator that a role is or comes to.
    pub fn try_from(c: ContributorRole) -> (r: Result<Self, ()>)
        ensures
            match c.relator() {
                Some(m) => r == Ok::<Self, ()>(m),
                None => r is Err,
            },
    {
        match c {
            ContributorRole::Marc(m) => Ok(m),
            ContributorRole::Onix(o) => {
                if let Some(m) = o.map_code() {
                    Ok(m)
                } else {
                    Err(())
                }
            },
        }
    }
}

} // verus!
