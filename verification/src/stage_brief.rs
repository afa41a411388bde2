//! The texts that brief the agent or person who carries out a stage.

use vstd::prelude::*;
use vstd::string::*;

use crate::models::{CreateRequestView, CreateWebAssistProjectRequest, WebAssistStage};

verus! {

/// The instructions of the stage "initial review".
pub const INITIAL_REVIEW_BRIEF: &'static str = "# Initial Review & Research Setup\n\n\
    Your task is to review the project requirements and prepare the foundation.\n\n\
    ## Objectives:\n\
    - Analyze the requirements thoroughly\n\
    - Create a project strategy document\n\
    - Set up the development environment\n\
    - Prepare research questions for the next stage\n\n\
    ## Deliverables:\n\
    - `deliverables/01_initial_review/strategy.md` - Project strategy\n\
    - `deliverables/01_initial_review/research_plan.md` - Research plan for next stage\n";

/// The instructions of the stage "ai research".
pub const AI_RESEARCH_BRIEF: &'static str = "# AI Research & Analysis (THOROUGH - 2 HOURS)\n\n\
    This is a CRITICAL stage. Take the FULL 2 hours to conduct comprehensive research.\n\n\
    ## Research Areas (ALL REQUIRED):\n\n\
    ### 1. Industry Analysis (60 minutes)\n\
    - Research current trends in the industry\n\
    - Identify top 10-15 competitor websites\n\
    - Analyze design patterns and UX conventions\n\
    - Document technology stacks used by industry leaders\n\
    - Screenshot and analyze competitor homepages\n\n\
    ### 2. Target Audience Research (30 minutes)\n\
    - Define detailed user personas\n\
    - Research user pain points and expectations\n\
    - Analyze user journey patterns\n\
    - Identify key conversion points\n\n\
    ### 3. Technical Requirements (30 minutes)\n\
    - Define performance targets (Core Web Vitals)\n\
    - Plan SEO strategy\n\
    - Identify required integrations\n\
    - Plan accessibility requirements (WCAG)\n\n\
    ## Deliverables (ALL REQUIRED):\n\
    - `deliverables/02_research/market_analysis.md` - Comprehensive findings\n\
    - `deliverables/02_research/competitor_analysis.md` - Detailed competitor breakdown\n\
    - `deliverables/02_research/technical_requirements.md` - Full tech spec\n\
    - `deliverables/02_research/recommendations.md` - Strategic recommendations\n\
    - `deliverables/02_research/screenshots/` - Competitor screenshots\n\n\
    **IMPORTANT:** Use all available time. Be thorough. This research guides ALL subsequent stages.\n";

/// The instructions of the stage "design mockup".
pub const DESIGN_MOCKUP_BRIEF: &'static str = "# Design Mockup Creation\n\n\
    Create professional, responsive design mockups based on research.\n\n\
    ## Objectives:\n\
    - Design homepage, about, services/products, contact pages\n\
    - Create responsive layouts (desktop, tablet, mobile)\n\
    - Define color scheme and typography\n\
    - Create design system/style guide\n\n\
    ## Deliverables:\n\
    - `deliverables/03_design/mockups/*.png` - Page mockups\n\
    - `deliverables/03_design/design_system.md` - Design system documentation\n\
    - `deliverables/03_design/figma_link.txt` - Figma/design tool link (if used)\n\n\
    **NOTE:** This stage requires CLIENT APPROVAL before proceeding.\n";

/// The instructions of the stage "content collection".
pub const CONTENT_COLLECTION_BRIEF: &'static str = "# Content Collection & SEO\n\n\
    Create all website content optimized for SEO.\n\n\
    ## Objectives:\n\
    - Write homepage copy\n\
    - Create page content for all sections\n\
    - Optimize for SEO (meta titles, descriptions, keywords)\n\
    - Prepare/optimize images\n\n\
    ## Deliverables:\n\
    - `deliverables/04_content/*.md` - Page content\n\
    - `deliverables/04_content/seo_meta.json` - SEO metadata\n\
    - `deliverables/04_content/images/` - Optimized images\n\n\
    **NOTE:** This stage requires CLIENT APPROVAL before proceeding.\n";

/// The instructions of the stage "development".
pub const DEVELOPMENT_BRIEF: &'static str = "# Full-Stack Development\n\n\
    Build the complete Next.js application.\n\n\
    ## Objectives:\n\
    - Implement all pages with approved designs\n\
    - Add all features and functionality\n\
    - Integrate CMS (if required)\n\
    - Set up analytics\n\
    - Optimize performance\n\n\
    ## Technical Stack:\n\
    - Next.js 15+ with App Router\n\
    - TypeScript\n\
    - Tailwind CSS\n\
    - Responsive design (mobile-first)\n\n\
    The Next.js project is already initialized at `project/`.\n";

/// The instructions of the stage "quality assurance".
pub const QUALITY_ASSURANCE_BRIEF: &'static str = "# Quality Assurance & Testing\n\n\
    Test thoroughly and optimize the website.\n\n\
    ## Objectives:\n\
    - Test all functionality\n\
    - Cross-browser testing (Chrome, Firefox, Safari, Edge)\n\
    - Cross-device testing (desktop, tablet, mobile)\n\
    - Performance optimization\n\
    - Accessibility testing\n\
    - Fix all bugs\n\n\
    ## Deliverables:\n\
    - `deliverables/06_qa/test_report.md` - Test results\n\
    - `deliverables/06_qa/performance_report.md` - Performance metrics\n";

/// The instructions of the stage "client preview".
pub const CLIENT_PREVIEW_BRIEF: &'static str = "# Client Preview & Final Review\n\n\
    Deploy to staging and prepare for client review.\n\n\
    ## Objectives:\n\
    - Deploy to staging environment\n\
    - Create preview URL\n\
    - Prepare handoff documentation\n\
    - Final polish and adjustments\n\n\
    ## Deliverables:\n\
    - `deliverables/07_preview/staging_url.txt` - Staging URL\n\
    - `deliverables/07_preview/handoff_docs.md` - Handoff documentation\n\n\
    **NOTE:** This stage requires CLIENT APPROVAL before deployment.\n";

/// The instructions of the stage "deployment".
pub const DEPLOYMENT_BRIEF: &'static str = "# Production Deployment\n\n\
    Deploy the website to production.\n\n\
    ## Objectives:\n\
    - Deploy to production environment (Vercel recommended)\n\
    - Configure custom domain\n\
    - Set up SSL certificate\n\
    - Final production checks\n\
    - Go live!\n\n\
    ## Deliverables:\n\
    - `deliverables/08_deployment/production_url.txt` - Live URL\n\
    - `deliverables/08_deployment/dns_records.md` - DNS configuration\n\
    - `deliverables/08_deployment/deployment_docs.md` - Deployment documentation\n";

/// The instructions of the stage "delivered".
pub const DELIVERED_BRIEF: &'static str = "# Project Delivered\n\n\
    Project is complete! The website is live and delivered to the client.\n\n\
    30-day support period begins now.\n";

/// What a client has entered about the project, as far as the briefs use it.
#[derive(Clone, Debug, PartialEq, Eq)]
pub struct Requirements {
    pub industry: Option<String>,
    pub target_audience: Option<String>,
    pub requirements: Option<String>,
}

/// `Requirements` by the plain values that it holds.
pub struct RequirementsView {
    pub industry: Option<Seq<char>>,
    pub target_audience: Option<Seq<char>>,
    pub requirements: Option<Seq<char>>,
}

impl View for Requirements {
    type V = RequirementsView;

    open spec fn view(&self) -> RequirementsView {
        RequirementsView {
            industry: self.industry.deep_view(),
            target_audience: self.target_audience.deep_view(),
            requirements: self.requirements.deep_view(),
        }
    }
}

impl DeepView for Requirements {
    type V = RequirementsView;

    open spec fn deep_view(&self) -> RequirementsView {
        self@
    }
}

/// The instructions that are particular to a stage.
pub open spec fn spec_stage_brief(stage: WebAssistStage) -> Seq<char> {
    match stage {
        WebAssistStage::InitialReview => INITIAL_REVIEW_BRIEF@,
        WebAssistStage::AiResearch => AI_RESEARCH_BRIEF@,
        WebAssistStage::DesignMockup => DESIGN_MOCKUP_BRIEF@,
        WebAssistStage::ContentCollection => CONTENT_COLLECTION_BRIEF@,
        WebAssistStage::Development => DEVELOPMENT_BRIEF@,
        WebAssistStage::QualityAssurance => QUALITY_ASSURANCE_BRIEF@,
        WebAssistStage::ClientPreview => CLIENT_PREVIEW_BRIEF@,
        WebAssistStage::Deployment => DEPLOYMENT_BRIEF@,
        WebAssistStage::Delivered => DELIVERED_BRIEF@,
    }
}

/// The text, or the default where there is none.
pub open spec fn text_or(text: Option<Seq<char>>, default: Seq<char>) -> Seq<char> {
    match text {
        Some(t) => t,
        None => default,
    }
}

/// What every brief of a project begins with: the project, the company and
/// what the client has asked for.
pub open spec fn spec_project_context(
    request: CreateRequestView,
    requirements: RequirementsView,
) -> Seq<char> {
    "**Project:** "@ + request.project_number + "\n\n**Company:** "@ + request.company_name
        + "\n**Industry:** "@ + text_or(requirements.industry, "general business"@)
        + "\n**Target Audience:** "@ + text_or(requirements.target_audience, "general audience"@)
        + "\n**Rush Delivery:** "@ + (if request.is_rush_delivery {
        "Yes (24h)"@
    } else {
        "No (48h)"@
    }) + "\n\n**Requirements:**\n"@ + text_or(
        requirements.requirements,
        "See wizard completion for details"@,
    ) + "\n\n"@
}

/// The description of the task of a stage: the project's context, then the
/// instructions of the stage.
pub open spec fn spec_stage_description(
    stage: WebAssistStage,
    request: CreateRequestView,
    requirements: RequirementsView,
) -> Seq<char> {
    spec_project_context(request, requirements) + "\n\n"@ + spec_stage_brief(stage)
}

/// The title of the task of a stage.
pub open spec fn spec_stage_title(stage: WebAssistStage) -> Seq<char> {
    "Stage "@ + stage.spec_ordinal_text() + ": "@ + stage.spec_display_name()
}

/// The instructions that are particular to a stage.
pub fn stage_brief(stage: WebAssistStage) -> (brief: &'static str)
    ensures
        brief@ == spec_stage_brief(stage),
{
    match stage {
        WebAssistStage::InitialReview => INITIAL_REVIEW_BRIEF,
        WebAssistStage::AiResearch => AI_RESEARCH_BRIEF,
        WebAssistStage::DesignMockup => DESIGN_MOCKUP_BRIEF,
        WebAssistStage::ContentCollection => CONTENT_COLLECTION_BRIEF,
        WebAssistStage::Development => DEVELOPMENT_BRIEF,
        WebAssistStage::QualityAssurance => QUALITY_ASSURANCE_BRIEF,
        WebAssistStage::ClientPreview => CLIENT_PREVIEW_BRIEF,
        WebAssistStage::Deployment => DEPLOYMENT_BRIEF,
        WebAssistStage::Delivered => DELIVERED_BRIEF,
    }
}

fn append_or(text: &mut String, value: &Option<String>, default: &str)
    ensures
        final(text)@ == old(text)@ + text_or(value.deep_view(), default@),
{
    match value {
        Some(v) => text.append(v.as_str()),
        None => text.append(default),
    }
}

/// The description of the task of a stage.
pub fn stage_description(
    stage: WebAssistStage,
    request: &CreateWebAssistProjectRequest,
    requirements: &Requirements,
) -> (description: String)
    ensures
        description@ == spec_stage_description(stage, request@, requirements@),
{
    let mut text = String::from_str("**Project:** ");
    text.append(request.project_number.as_str());
    text.append("\n\n**Company:** ");
    text.append(request.company_name.as_str());
    text.append("\n**Industry:** ");
    append_or(&mut text, &requirements.industry, "general business");
    text.append("\n**Target Audience:** ");
    append_or(&mut text, &requirements.target_audience, "general audience");
    text.append("\n**Rush Delivery:** ");
    if request.is_rush_delivery {
        text.append("Yes (24h)");
    } else {
        text.append("No (48h)");
    }
    text.append("\n\n**Requirements:**\n");
    append_or(&mut text, &requirements.requirements, "See wizard completion for details");
    text.append("\n\n");
    assert(text@ == spec_project_context(request@, requirements@));
    text.append("\n\n");
    text.append(stage_brief(stage));
    text
}

/// The title of the task of a stage.
pub fn stage_title(stage: WebAssistStage) -> (title: String)
    ensures
        title@ == spec_stage_title(stage),
{
    let mut title = String::from_str("Stage ");
    title.append(stage.ordinal_text());
    title.append(": ");
    title.append(stage.display_name());
    title
}

} // verus!
